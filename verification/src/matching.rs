//! The matching engine: a deterministic scan over a bounded batch of orders
//! that crosses buys against sells and reports the unmatched remainder.
//!
//! The scan order is load-bearing: buy slots are visited in ascending index
//! order, and each buy probes sell slots in ascending index order, so the
//! first crossing sell absorbs liquidity before later sells are considered.

use vstd::prelude::*;
use crate::order::SubmitOrderInput;

verus! {

broadcast use vstd::array::group_array_axioms;

/// Capacity of a matching batch: how many order slots one call examines and
/// how many matches or residuals it can emit.
pub const MAX_ORDERS: usize = 2;

/// A bounded batch of orders. Slots at index `n_orders` and beyond are
/// ignored, whatever they hold; an `n_orders` larger than the capacity
/// behaves like the capacity.
#[derive(Clone, Copy, PartialEq, Eq, Debug)]
pub struct MatchOrdersInput {
    pub orders: [SubmitOrderInput; MAX_ORDERS],
    pub n_orders: u8,
}

/// One crossed trade: the two order ids, the price taken from the resting
/// sell order, and the traded size.
#[derive(Clone, Copy, PartialEq, Eq, Structural, Debug)]
pub struct Match {
    pub buy_order_id: u64,
    pub sell_order_id: u64,
    pub matched_price: u64,
    pub matched_size: u64,
}

/// The engine's result: the crossed matches and the residual orders, each in
/// a fixed-capacity array with a count; slots beyond the count are zeroed.
#[derive(Clone, Copy, PartialEq, Eq, Debug)]
pub struct MatchOrdersOutput {
    pub matches: [Match; MAX_ORDERS],
    pub n_matches: u8,
    pub residuals: [SubmitOrderInput; MAX_ORDERS],
    pub n_residuals: u8,
}

/// A match together with the slot indices of the two orders it crossed. The
/// model records indices so that per-order accounting can be stated even when
/// order ids repeat in a batch.
pub struct MatchRec {
    pub buy_i: int,
    pub sell_i: int,
    pub m: Match,
}

/// The evolving state of the matching scan: the unmatched size per slot and
/// the matches recorded so far.
pub struct MatchState {
    pub remaining: Seq<u64>,
    pub matches: Seq<MatchRec>,
}

/// The all-zero match used to pad unused output slots.
pub open spec fn zero_match() -> Match {
    Match { buy_order_id: 0, sell_order_id: 0, matched_price: 0, matched_size: 0 }
}

/// The all-zero order used to pad unused output slots.
pub open spec fn zero_order() -> SubmitOrderInput {
    SubmitOrderInput { order_id: 0, side: 0, price: 0, size: 0, expiry: 0 }
}

/// Initial unmatched sizes: the size of each populated slot, zero elsewhere.
pub open spec fn init_remaining(orders: Seq<SubmitOrderInput>, n: int) -> Seq<u64> {
    Seq::new(MAX_ORDERS as nat, |i: int| if i < n { orders[i].size } else { 0u64 })
}

/// One probe of buy slot `i` against sell slot `j`: if `j` is populated,
/// holds a sell with liquidity, and the buy's price reaches the sell's, the
/// smaller of the two unmatched sizes trades at the sell's price; a match is
/// recorded only while the match count is below capacity.
pub open spec fn scan_pair(
    orders: Seq<SubmitOrderInput>,
    n: int,
    i: int,
    j: int,
    st: MatchState,
) -> MatchState {
    if j < n && st.remaining[i] > 0 && orders[j].side == 1 && st.remaining[j] > 0
        && orders[i].price >= orders[j].price {
        let matched = if st.remaining[i] < st.remaining[j] {
            st.remaining[i]
        } else {
            st.remaining[j]
        };
        if matched > 0 && st.matches.len() < MAX_ORDERS as int {
            MatchState {
                remaining: st.remaining.update(i, (st.remaining[i] - matched) as u64).update(
                    j,
                    (st.remaining[j] - matched) as u64,
                ),
                matches: st.matches.push(
                    MatchRec {
                        buy_i: i,
                        sell_i: j,
                        m: Match {
                            buy_order_id: orders[i].order_id,
                            sell_order_id: orders[j].order_id,
                            matched_price: orders[j].price,
                            matched_size: matched,
                        },
                    },
                ),
            }
        } else {
            st
        }
    } else {
        st
    }
}

/// The inner scan: buy slot `i` probes sell slots `j` up to the capacity, in
/// ascending index order.
pub open spec fn scan_sells(
    orders: Seq<SubmitOrderInput>,
    n: int,
    i: int,
    j: int,
    st: MatchState,
) -> MatchState
    decreases MAX_ORDERS as int - j,
{
    if j >= MAX_ORDERS as int {
        st
    } else {
        scan_sells(orders, n, i, j + 1, scan_pair(orders, n, i, j, st))
    }
}

/// The outer scan: slots in ascending index order; a populated buy slot with
/// liquidity probes every sell slot before the next slot is considered.
pub open spec fn scan_buys(
    orders: Seq<SubmitOrderInput>,
    n: int,
    i: int,
    st: MatchState,
) -> MatchState
    decreases MAX_ORDERS as int - i,
{
    if i >= MAX_ORDERS as int {
        st
    } else {
        let st1 = if i < n && orders[i].side == 0 && st.remaining[i] > 0 {
            scan_sells(orders, n, i, 0, st)
        } else {
            st
        };
        scan_buys(orders, n, i + 1, st1)
    }
}

/// The state the matching phase reaches on a batch.
pub open spec fn matching_state(input: MatchOrdersInput) -> MatchState {
    scan_buys(
        input.orders@,
        input.n_orders as int,
        0,
        MatchState {
            remaining: init_remaining(input.orders@, input.n_orders as int),
            matches: Seq::<MatchRec>::empty(),
        },
    )
}

/// The matches the engine emits, each with its slot indices.
pub open spec fn matching_recs(input: MatchOrdersInput) -> Seq<MatchRec> {
    matching_state(input).matches
}

/// The unmatched size left in each slot after the matching phase.
pub open spec fn final_remaining(input: MatchOrdersInput) -> Seq<u64> {
    matching_state(input).remaining
}

/// Residual collection: each populated slot with unmatched size becomes an
/// order of reduced size, in ascending slot order, while the residual count
/// is below capacity.
pub open spec fn collect_residuals(
    orders: Seq<SubmitOrderInput>,
    n: int,
    rem: Seq<u64>,
    i: int,
    res: Seq<SubmitOrderInput>,
) -> Seq<SubmitOrderInput>
    decreases MAX_ORDERS as int - i,
{
    if i >= MAX_ORDERS as int {
        res
    } else {
        let res1 = if i < n && rem[i] > 0 && res.len() < MAX_ORDERS as int {
            res.push(
                SubmitOrderInput {
                    order_id: orders[i].order_id,
                    side: orders[i].side,
                    price: orders[i].price,
                    size: rem[i],
                    expiry: orders[i].expiry,
                },
            )
        } else {
            res
        };
        collect_residuals(orders, n, rem, i + 1, res1)
    }
}

/// The residual orders the engine emits.
pub open spec fn matching_residuals(input: MatchOrdersInput) -> Seq<SubmitOrderInput> {
    collect_residuals(
        input.orders@,
        input.n_orders as int,
        final_remaining(input),
        0,
        Seq::<SubmitOrderInput>::empty(),
    )
}

/// The match array as emitted: the recorded matches, then zero padding.
pub open spec fn padded_matches(input: MatchOrdersInput) -> Seq<Match> {
    Seq::new(
        MAX_ORDERS as nat,
        |k: int|
            if k < matching_recs(input).len() {
                matching_recs(input)[k].m
            } else {
                zero_match()
            },
    )
}

/// The residual array as emitted: the residual orders, then zero padding.
pub open spec fn padded_residuals(input: MatchOrdersInput) -> Seq<SubmitOrderInput> {
    Seq::new(
        MAX_ORDERS as nat,
        |k: int|
            if k < matching_residuals(input).len() {
                matching_residuals(input)[k]
            } else {
                zero_order()
            },
    )
}

/// Runs the matching scan on a batch. The whole output, padding included, is
/// a function of the input alone, so two runs on equal inputs give equal
/// outputs.
pub fn match_orders(input: MatchOrdersInput) -> (out: MatchOrdersOutput)
    ensures
        out.n_matches as int == matching_recs(input).len(),
        matching_recs(input).len() <= MAX_ORDERS as int,
        out.matches@ == padded_matches(input),
        out.n_residuals as int == matching_residuals(input).len(),
        matching_residuals(input).len() <= MAX_ORDERS as int,
        out.residuals@ == padded_residuals(input),
{
    let mut matches: [Match; MAX_ORDERS] = [Match {
        buy_order_id: 0,
        sell_order_id: 0,
        matched_price: 0,
        matched_size: 0,
    }; MAX_ORDERS];
    let mut residuals: [SubmitOrderInput; MAX_ORDERS] = [SubmitOrderInput {
        order_id: 0,
        side: 0,
        price: 0,
        size: 0,
        expiry: 0,
    }; MAX_ORDERS];
    let mut n_matches: u8 = 0;
    let mut n_residuals: u8 = 0;

    let mut remaining: [u64; MAX_ORDERS] = [0u64; MAX_ORDERS];
    let n = input.n_orders as usize;

    let mut i: usize = 0;
    while i < MAX_ORDERS
        invariant
            i <= MAX_ORDERS,
            n == input.n_orders as usize,
            forall|k: int| 0 <= k < i as int ==> remaining@[k] == init_remaining(
                input.orders@,
                input.n_orders as int,
            )[k],
        decreases MAX_ORDERS - i,
    {
        if i < n {
            remaining[i] = input.orders[i].size;
        } else {
            remaining[i] = 0;
        }
        i += 1;
    }
    proof {
        assert(remaining@ =~= init_remaining(input.orders@, input.n_orders as int));
    }

    let ghost init_st = MatchState {
        remaining: init_remaining(input.orders@, input.n_orders as int),
        matches: Seq::<MatchRec>::empty(),
    };
    let ghost mut st = init_st;

    let mut i: usize = 0;
    while i < MAX_ORDERS
        invariant
            i <= MAX_ORDERS,
            n == input.n_orders as usize,
            st.remaining.len() == MAX_ORDERS as int,
            remaining@ == st.remaining,
            n_matches as int == st.matches.len(),
            st.matches.len() <= MAX_ORDERS as int,
            forall|k: int| 0 <= k < n_matches as int ==> matches@[k] == st.matches[k].m,
            forall|k: int| n_matches as int <= k < MAX_ORDERS as int ==> matches@[k]
                == zero_match(),
            scan_buys(input.orders@, input.n_orders as int, i as int, st) == matching_state(
                input,
            ),
        decreases MAX_ORDERS - i,
    {
        if i < n && input.orders[i].side == 0 && remaining[i] > 0 {
            let mut j: usize = 0;
            while j < MAX_ORDERS
                invariant
                    j <= MAX_ORDERS,
                    i < MAX_ORDERS,
                    i < n,
                    input.orders@[i as int].side == 0,
                    n == input.n_orders as usize,
                    st.remaining.len() == MAX_ORDERS as int,
                    remaining@ == st.remaining,
                    n_matches as int == st.matches.len(),
                    st.matches.len() <= MAX_ORDERS as int,
                    forall|k: int| 0 <= k < n_matches as int ==> matches@[k] == st.matches[k].m,
                    forall|k: int| n_matches as int <= k < MAX_ORDERS as int ==> matches@[k]
                        == zero_match(),
                    scan_buys(
                        input.orders@,
                        input.n_orders as int,
                        i as int + 1,
                        scan_sells(input.orders@, input.n_orders as int, i as int, j as int, st),
                    ) == matching_state(input),
                decreases MAX_ORDERS - j,
            {
                let ghost st_pre = st;
                if j < n {
                    if remaining[i] == 0 {
                        // this buy is fully matched; later sells are no-ops
                    } else {
                        let oj = input.orders[j];
                        if oj.side == 1 && remaining[j] > 0 && input.orders[i].price >= oj.price {
                            let matched = if remaining[i] < remaining[j] {
                                remaining[i]
                            } else {
                                remaining[j]
                            };
                            if matched > 0 && (n_matches as usize) < MAX_ORDERS {
                                proof {
                                    assert(i != j);
                                }
                                matches[n_matches as usize] = Match {
                                    buy_order_id: input.orders[i].order_id,
                                    sell_order_id: oj.order_id,
                                    matched_price: oj.price,
                                    matched_size: matched,
                                };
                                n_matches = n_matches + 1;
                                remaining[i] = remaining[i] - matched;
                                remaining[j] = remaining[j] - matched;
                            }
                        }
                    }
                }
                proof {
                    st = scan_pair(
                        input.orders@,
                        input.n_orders as int,
                        i as int,
                        j as int,
                        st_pre,
                    );
                }
                j += 1;
            }
        }
        i += 1;
    }

    let ghost rem_final = st.remaining;
    proof {
        assert(matching_state(input) == st);
    }

    let ghost mut res = Seq::<SubmitOrderInput>::empty();
    let mut i: usize = 0;
    while i < MAX_ORDERS
        invariant
            i <= MAX_ORDERS,
            n == input.n_orders as usize,
            remaining@ == rem_final,
            n_residuals as int == res.len(),
            res.len() <= MAX_ORDERS as int,
            forall|k: int| 0 <= k < n_residuals as int ==> residuals@[k] == res[k],
            forall|k: int| n_residuals as int <= k < MAX_ORDERS as int ==> residuals@[k]
                == zero_order(),
            collect_residuals(input.orders@, input.n_orders as int, rem_final, i as int, res)
                == matching_residuals(input),
        decreases MAX_ORDERS - i,
    {
        let ghost res_pre = res;
        if i < n {
            if remaining[i] > 0 && (n_residuals as usize) < MAX_ORDERS {
                let mut r = input.orders[i];
                r.size = remaining[i];
                residuals[n_residuals as usize] = r;
                n_residuals = n_residuals + 1;
                proof {
                    res = res_pre.push(r);
                }
            }
        }
        i += 1;
    }

    proof {
        assert(matches@ =~= padded_matches(input));
        assert(residuals@ =~= padded_residuals(input));
    }
    MatchOrdersOutput { matches, n_matches, residuals, n_residuals }
}

/// The crossing condition: a recorded match pairs a populated buy slot with a
/// distinct populated sell slot, copies both order ids, takes the sell's
/// price, trades a positive size, and the buy's price reaches the matched
/// price.
pub open spec fn rec_ok(orders: Seq<SubmitOrderInput>, n: int, r: MatchRec) -> bool {
    &&& 0 <= r.buy_i < MAX_ORDERS as int
    &&& 0 <= r.sell_i < MAX_ORDERS as int
    &&& r.buy_i < n
    &&& r.sell_i < n
    &&& r.buy_i != r.sell_i
    &&& orders[r.buy_i].side == 0
    &&& orders[r.sell_i].side == 1
    &&& r.m.buy_order_id == orders[r.buy_i].order_id
    &&& r.m.sell_order_id == orders[r.sell_i].order_id
    &&& r.m.matched_price == orders[r.sell_i].price
    &&& orders[r.buy_i].price >= r.m.matched_price
    &&& r.m.matched_size > 0
}

/// Total size matched by slot `i` on the buy side over a match sequence.
pub open spec fn buy_total(ms: Seq<MatchRec>, i: int) -> int
    decreases ms.len(),
{
    if ms.len() == 0 {
        0
    } else {
        buy_total(ms.drop_last(), i) + if ms.last().buy_i == i {
            ms.last().m.matched_size as int
        } else {
            0
        }
    }
}

/// Total size matched by slot `i` on the sell side over a match sequence.
pub open spec fn sell_total(ms: Seq<MatchRec>, i: int) -> int
    decreases ms.len(),
{
    if ms.len() == 0 {
        0
    } else {
        sell_total(ms.drop_last(), i) + if ms.last().sell_i == i {
            ms.last().m.matched_size as int
        } else {
            0
        }
    }
}

/// The accounting invariant of the matching scan: every recorded match
/// crosses correctly, and each slot's initial size splits into what it has
/// matched so far plus what remains.
pub open spec fn conserves(orders: Seq<SubmitOrderInput>, n: int, st: MatchState) -> bool {
    &&& st.remaining.len() == MAX_ORDERS as int
    &&& forall|k: int|
        0 <= k < MAX_ORDERS as int ==> buy_total(st.matches, k) + sell_total(st.matches, k)
            + st.remaining[k] == init_remaining(orders, n)[k]
    &&& forall|t: int| 0 <= t < st.matches.len() ==> rec_ok(orders, n, #[trigger] st.matches[t])
}

proof fn lemma_totals_push(ms: Seq<MatchRec>, r: MatchRec, k: int)
    ensures
        buy_total(ms.push(r), k) == buy_total(ms, k) + if r.buy_i == k {
            r.m.matched_size as int
        } else {
            0
        },
        sell_total(ms.push(r), k) == sell_total(ms, k) + if r.sell_i == k {
            r.m.matched_size as int
        } else {
            0
        },
{
    assert(ms.push(r).drop_last() =~= ms);
    assert(ms.push(r).last() == r);
}

proof fn lemma_scan_pair_preserves(
    orders: Seq<SubmitOrderInput>,
    n: int,
    i: int,
    j: int,
    st: MatchState,
)
    requires
        conserves(orders, n, st),
        0 <= i < MAX_ORDERS as int,
        i < n,
        orders[i].side == 0,
        0 <= j < MAX_ORDERS as int,
    ensures
        conserves(orders, n, scan_pair(orders, n, i, j, st)),
{
    let st1 = scan_pair(orders, n, i, j, st);
    if j < n && st.remaining[i] > 0 && orders[j].side == 1 && st.remaining[j] > 0
        && orders[i].price >= orders[j].price {
        let matched = if st.remaining[i] < st.remaining[j] {
            st.remaining[i]
        } else {
            st.remaining[j]
        };
        if matched > 0 && st.matches.len() < MAX_ORDERS as int {
            let r = MatchRec {
                buy_i: i,
                sell_i: j,
                m: Match {
                    buy_order_id: orders[i].order_id,
                    sell_order_id: orders[j].order_id,
                    matched_price: orders[j].price,
                    matched_size: matched,
                },
            };
            assert(i != j);
            assert forall|k: int| 0 <= k < MAX_ORDERS as int implies buy_total(st1.matches, k)
                + sell_total(st1.matches, k) + st1.remaining[k] == init_remaining(orders, n)[k] by {
                lemma_totals_push(st.matches, r, k);
            }
            assert(forall|t: int|
                0 <= t < st1.matches.len() ==> rec_ok(orders, n, #[trigger] st1.matches[t]));
        }
    }
}

proof fn lemma_scan_sells_preserves(
    orders: Seq<SubmitOrderInput>,
    n: int,
    i: int,
    j: int,
    st: MatchState,
)
    requires
        conserves(orders, n, st),
        0 <= i < MAX_ORDERS as int,
        i < n,
        orders[i].side == 0,
        0 <= j,
    ensures
        conserves(orders, n, scan_sells(orders, n, i, j, st)),
    decreases MAX_ORDERS as int - j,
{
    if j >= MAX_ORDERS as int {
    } else {
        lemma_scan_pair_preserves(orders, n, i, j, st);
        lemma_scan_sells_preserves(orders, n, i, j + 1, scan_pair(orders, n, i, j, st));
    }
}

proof fn lemma_scan_buys_preserves(orders: Seq<SubmitOrderInput>, n: int, i: int, st: MatchState)
    requires
        conserves(orders, n, st),
        0 <= i,
    ensures
        conserves(orders, n, scan_buys(orders, n, i, st)),
    decreases MAX_ORDERS as int - i,
{
    if i >= MAX_ORDERS as int {
    } else {
        let st1 = if i < n && orders[i].side == 0 && st.remaining[i] > 0 {
            scan_sells(orders, n, i, 0, st)
        } else {
            st
        };
        if i < n && orders[i].side == 0 && st.remaining[i] > 0 {
            lemma_scan_sells_preserves(orders, n, i, 0, st);
        }
        lemma_scan_buys_preserves(orders, n, i + 1, st1);
    }
}

proof fn lemma_matching_state_conserves(input: MatchOrdersInput)
    ensures
        conserves(input.orders@, input.n_orders as int, matching_state(input)),
{
    let init_st = MatchState {
        remaining: init_remaining(input.orders@, input.n_orders as int),
        matches: Seq::<MatchRec>::empty(),
    };
    assert(conserves(input.orders@, input.n_orders as int, init_st));
    lemma_scan_buys_preserves(input.orders@, input.n_orders as int, 0, init_st);
}

/// Conservation of size: for each slot, the size it entered with equals the
/// total size it matched, on whichever side, plus its unmatched remainder.
/// Unpopulated slots enter with size zero and match nothing.
pub proof fn lemma_matching_conserves_size(input: MatchOrdersInput, i: int)
    requires
        0 <= i < MAX_ORDERS as int,
    ensures
        final_remaining(input).len() == MAX_ORDERS as int,
        buy_total(matching_recs(input), i) + sell_total(matching_recs(input), i)
            + final_remaining(input)[i] == if i < input.n_orders as int {
            input.orders@[i].size as int
        } else {
            0
        },
{
    lemma_matching_state_conserves(input);
    let st = matching_state(input);
    assert(buy_total(st.matches, i) + sell_total(st.matches, i) + st.remaining[i]
        == init_remaining(input.orders@, input.n_orders as int)[i]);
    assert(init_remaining(input.orders@, input.n_orders as int)[i]
        == if i < input.n_orders as int {
        input.orders@[i].size
    } else {
        0u64
    });
}

/// The crossing condition holds of every match the engine emits.
pub proof fn lemma_matching_crossing(input: MatchOrdersInput, t: int)
    requires
        0 <= t < matching_recs(input).len(),
    ensures
        rec_ok(input.orders@, input.n_orders as int, matching_recs(input)[t]),
{
    lemma_matching_state_conserves(input);
}

/// Residual collection without the capacity check: every populated slot with
/// an unmatched remainder contributes one reduced order, in slot order.
pub open spec fn ideal_residuals(
    orders: Seq<SubmitOrderInput>,
    n: int,
    rem: Seq<u64>,
    i: int,
) -> Seq<SubmitOrderInput>
    decreases MAX_ORDERS as int - i,
{
    if i >= MAX_ORDERS as int {
        Seq::<SubmitOrderInput>::empty()
    } else {
        let head = if i < n && rem[i] > 0 {
            seq![
                SubmitOrderInput {
                    order_id: orders[i].order_id,
                    side: orders[i].side,
                    price: orders[i].price,
                    size: rem[i],
                    expiry: orders[i].expiry,
                },
            ]
        } else {
            Seq::<SubmitOrderInput>::empty()
        };
        head + ideal_residuals(orders, n, rem, i + 1)
    }
}

proof fn lemma_collect_is_ideal(
    orders: Seq<SubmitOrderInput>,
    n: int,
    rem: Seq<u64>,
    i: int,
    res: Seq<SubmitOrderInput>,
)
    requires
        0 <= i,
        res.len() <= i,
    ensures
        collect_residuals(orders, n, rem, i, res) == res + ideal_residuals(orders, n, rem, i),
    decreases MAX_ORDERS as int - i,
{
    if i >= MAX_ORDERS as int {
        assert(collect_residuals(orders, n, rem, i, res) =~= res + ideal_residuals(
            orders,
            n,
            rem,
            i,
        ));
    } else {
        if i < n && rem[i] > 0 {
            let entry = SubmitOrderInput {
                order_id: orders[i].order_id,
                side: orders[i].side,
                price: orders[i].price,
                size: rem[i],
                expiry: orders[i].expiry,
            };
            lemma_collect_is_ideal(orders, n, rem, i + 1, res.push(entry));
            assert(res.push(entry) + ideal_residuals(orders, n, rem, i + 1) =~= res
                + ideal_residuals(orders, n, rem, i));
        } else {
            lemma_collect_is_ideal(orders, n, rem, i + 1, res);
            assert(res + ideal_residuals(orders, n, rem, i + 1) =~= res + ideal_residuals(
                orders,
                n,
                rem,
                i,
            ));
        }
    }
}

/// The residual batch never truncates: it is exactly one reduced order per
/// populated slot with an unmatched remainder, in ascending slot order.
pub proof fn lemma_residuals_exact(input: MatchOrdersInput)
    ensures
        matching_residuals(input) == ideal_residuals(
            input.orders@,
            input.n_orders as int,
            final_remaining(input),
            0,
        ),
{
    lemma_collect_is_ideal(
        input.orders@,
        input.n_orders as int,
        final_remaining(input),
        0,
        Seq::<SubmitOrderInput>::empty(),
    );
    assert(Seq::<SubmitOrderInput>::empty() + ideal_residuals(
        input.orders@,
        input.n_orders as int,
        final_remaining(input),
        0,
    ) =~= ideal_residuals(input.orders@, input.n_orders as int, final_remaining(input), 0));
}

/// Determinism: any two outputs that satisfy the engine's contract on the
/// same input are bit-identical, padding included.
pub proof fn lemma_match_orders_deterministic(
    input: MatchOrdersInput,
    o1: MatchOrdersOutput,
    o2: MatchOrdersOutput,
)
    requires
        o1.n_matches as int == matching_recs(input).len(),
        o1.matches@ == padded_matches(input),
        o1.n_residuals as int == matching_residuals(input).len(),
        o1.residuals@ == padded_residuals(input),
        o2.n_matches as int == matching_recs(input).len(),
        o2.matches@ == padded_matches(input),
        o2.n_residuals as int == matching_residuals(input).len(),
        o2.residuals@ == padded_residuals(input),
    ensures
        o1 == o2,
{
    assert(o1.matches =~= o2.matches);
    assert(o1.residuals =~= o2.residuals);
}

} // verus!
