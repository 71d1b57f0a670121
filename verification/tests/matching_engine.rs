use confidential_cross_chain_exchange::matching::{match_orders, Match, MatchOrdersInput};
use confidential_cross_chain_exchange::order::SubmitOrderInput;
use confidential_cross_chain_exchange::settlement::{
    settle_match, SettleMatchInput, SettlementDirective,
};

fn order(order_id: u64, side: u8, price: u64, size: u64) -> SubmitOrderInput {
    SubmitOrderInput { order_id, side, price, size, expiry: 0 }
}

fn zero_order() -> SubmitOrderInput {
    order(0, 0, 0, 0)
}

fn zero_match() -> Match {
    Match { buy_order_id: 0, sell_order_id: 0, matched_price: 0, matched_size: 0 }
}

#[test]
fn scenario_a_full_cross() {
    let input = MatchOrdersInput {
        orders: [order(1, 0, 100, 10), order(2, 1, 90, 10)],
        n_orders: 2,
    };
    let out = match_orders(input);
    assert_eq!(out.n_matches, 1);
    assert_eq!(
        out.matches[0],
        Match { buy_order_id: 1, sell_order_id: 2, matched_price: 90, matched_size: 10 }
    );
    assert_eq!(out.matches[1], zero_match());
    assert_eq!(out.n_residuals, 0);
    assert_eq!(out.residuals[0], zero_order());
    assert_eq!(out.residuals[1], zero_order());
}

#[test]
fn scenario_b_no_cross() {
    let o1 = order(1, 0, 80, 5);
    let o2 = order(2, 1, 90, 5);
    let out = match_orders(MatchOrdersInput { orders: [o1, o2], n_orders: 2 });
    assert_eq!(out.n_matches, 0);
    assert_eq!(out.n_residuals, 2);
    assert_eq!(out.residuals[0], o1);
    assert_eq!(out.residuals[1], o2);
}

#[test]
fn scenario_c_count_beyond_capacity() {
    // Only two slots exist; a count of three behaves exactly like a count of
    // two, and no slot beyond the capacity is ever examined.
    let orders = [order(1, 0, 100, 10), order(2, 1, 90, 10)];
    let with_three = match_orders(MatchOrdersInput { orders, n_orders: 3 });
    let with_two = match_orders(MatchOrdersInput { orders, n_orders: 2 });
    assert_eq!(with_three, with_two);
    assert_eq!(with_three.n_matches, 1);
}

#[test]
fn determinism_two_runs() {
    let input = MatchOrdersInput {
        orders: [order(7, 0, 55, 9), order(8, 1, 50, 4)],
        n_orders: 2,
    };
    let first = match_orders(input);
    let second = match_orders(input);
    assert_eq!(first, second);
}

#[test]
fn conservation_on_partial_fill() {
    // The sell offers less than the buy wants: sizes split into matched plus
    // residual on both sides.
    let out = match_orders(MatchOrdersInput {
        orders: [order(1, 0, 100, 10), order(2, 1, 90, 4)],
        n_orders: 2,
    });
    assert_eq!(out.n_matches, 1);
    assert_eq!(
        out.matches[0],
        Match { buy_order_id: 1, sell_order_id: 2, matched_price: 90, matched_size: 4 }
    );
    assert_eq!(out.n_residuals, 1);
    assert_eq!(out.residuals[0], order(1, 0, 100, 6));
    assert_eq!(out.matches[0].matched_size + out.residuals[0].size, 10);
}

#[test]
fn buy_slots_scan_in_index_order() {
    // The buy sits in the second slot; the scan still finds the sell in the
    // first slot and matches at the sell's price.
    let out = match_orders(MatchOrdersInput {
        orders: [order(1, 1, 90, 10), order(2, 0, 100, 10)],
        n_orders: 2,
    });
    assert_eq!(out.n_matches, 1);
    assert_eq!(
        out.matches[0],
        Match { buy_order_id: 2, sell_order_id: 1, matched_price: 90, matched_size: 10 }
    );
    assert_eq!(out.n_residuals, 0);
}

#[test]
fn empty_batch_matches_nothing() {
    let out = match_orders(MatchOrdersInput {
        orders: [order(1, 0, 100, 10), order(2, 1, 90, 10)],
        n_orders: 0,
    });
    assert_eq!(out.n_matches, 0);
    assert_eq!(out.n_residuals, 0);
}

#[test]
fn equal_prices_cross() {
    let out = match_orders(MatchOrdersInput {
        orders: [order(1, 0, 90, 3), order(2, 1, 90, 3)],
        n_orders: 2,
    });
    assert_eq!(out.n_matches, 1);
    assert_eq!(out.matches[0].matched_price, 90);
    assert_eq!(out.n_residuals, 0);
}

#[test]
fn invalid_side_is_neither_buy_nor_sell() {
    // A side tag outside the two valid codes neither buys nor sells, but its
    // size still comes back as a residual.
    let odd = order(3, 9, 100, 5);
    let out = match_orders(MatchOrdersInput {
        orders: [odd, order(2, 1, 90, 10)],
        n_orders: 2,
    });
    assert_eq!(out.n_matches, 0);
    assert_eq!(out.n_residuals, 2);
    assert_eq!(out.residuals[0], odd);
}

#[test]
fn two_buys_never_match() {
    let o1 = order(1, 0, 100, 5);
    let o2 = order(2, 0, 120, 6);
    let out = match_orders(MatchOrdersInput { orders: [o1, o2], n_orders: 2 });
    assert_eq!(out.n_matches, 0);
    assert_eq!(out.n_residuals, 2);
    assert_eq!(out.residuals[0], o1);
    assert_eq!(out.residuals[1], o2);
}

#[test]
fn settlement_fixed_pair() {
    let m = Match { buy_order_id: 1, sell_order_id: 2, matched_price: 90, matched_size: 10 };
    let out = settle_match(SettleMatchInput {
        match_details: m,
        deposit_proofs: [0, 0, 0, 0],
        n_deposit_proofs: 0,
    });
    assert_eq!(out.n_directives, 2);
    assert_eq!(
        out.settlement_directives[0],
        SettlementDirective { order_id: 1, amount: 900, asset_type: 0 }
    );
    assert_eq!(
        out.settlement_directives[1],
        SettlementDirective { order_id: 2, amount: 10, asset_type: 1 }
    );
    assert_eq!(
        out.settlement_directives[2],
        SettlementDirective { order_id: 0, amount: 0, asset_type: 0 }
    );
    assert_eq!(
        out.settlement_directives[3],
        SettlementDirective { order_id: 0, amount: 0, asset_type: 0 }
    );
}

#[test]
fn settlement_ignores_deposit_proofs() {
    let m = Match { buy_order_id: 4, sell_order_id: 5, matched_price: 7, matched_size: 3 };
    let a = settle_match(SettleMatchInput {
        match_details: m,
        deposit_proofs: [0, 0, 0, 0],
        n_deposit_proofs: 0,
    });
    let b = settle_match(SettleMatchInput {
        match_details: m,
        deposit_proofs: [9, 8, 7, 6],
        n_deposit_proofs: 4,
    });
    assert_eq!(a, b);
}

#[test]
fn settlement_amount_wraps() {
    let m = Match {
        buy_order_id: 1,
        sell_order_id: 2,
        matched_price: 2,
        matched_size: u64::MAX,
    };
    let out = settle_match(SettleMatchInput {
        match_details: m,
        deposit_proofs: [0, 0, 0, 0],
        n_deposit_proofs: 0,
    });
    assert_eq!(out.settlement_directives[0].amount, u64::MAX - 1);
    assert_eq!(out.settlement_directives[1].amount, u64::MAX);
}
