//! Settlement directive generation: one match settles as a fixed pair of
//! payout instructions, one per side.

use vstd::prelude::*;
use crate::matching::Match;

verus! {

broadcast use vstd::array::group_array_axioms;

/// Asset tag for the ledger's native asset.
pub const ASSET_NATIVE: u8 = 0;

/// Asset tag for the token asset.
pub const ASSET_TOKEN: u8 = 1;

/// A settlement request: the match to settle and up to four opaque deposit
/// proofs. The proofs are accepted but not verified by this core — a known
/// gap: they ride along for an external verifier.
#[derive(Clone, Copy, PartialEq, Eq, Debug)]
pub struct SettleMatchInput {
    pub match_details: Match,
    pub deposit_proofs: [u64; 4],
    pub n_deposit_proofs: u8,
}

/// One payout instruction: the order credited, the amount, and the asset it
/// is paid in.
#[derive(Clone, Copy, PartialEq, Eq, Structural, Debug)]
pub struct SettlementDirective {
    pub order_id: u64,
    pub amount: u64,
    pub asset_type: u8,
}

/// The generator's result: four directive slots of which the first two are
/// used and the rest are zeroed.
#[derive(Clone, Copy, PartialEq, Eq, Debug)]
pub struct SettleMatchOutput {
    pub settlement_directives: [SettlementDirective; 4],
    pub n_directives: u8,
}

/// The all-zero directive used to pad unused output slots.
pub open spec fn zero_directive() -> SettlementDirective {
    SettlementDirective { order_id: 0, amount: 0, asset_type: 0 }
}

/// The buyer's obligation: matched size times matched price, as a wrapping
/// 64-bit product, paid in the native asset.
pub open spec fn buy_directive(m: Match) -> SettlementDirective {
    SettlementDirective {
        order_id: m.buy_order_id,
        amount: m.matched_size.wrapping_mul(m.matched_price),
        asset_type: ASSET_NATIVE,
    }
}

/// The seller's obligation: the matched size, paid in the token asset.
pub open spec fn sell_directive(m: Match) -> SettlementDirective {
    SettlementDirective {
        order_id: m.sell_order_id,
        amount: m.matched_size,
        asset_type: ASSET_TOKEN,
    }
}

/// The full directive array a match settles to: the fixed pair, then zero
/// padding. A function of the match alone.
pub open spec fn settlement_directives_spec(m: Match) -> Seq<SettlementDirective> {
    seq![buy_directive(m), sell_directive(m), zero_directive(), zero_directive()]
}

/// Generates the two payout directives for a match. The deposit proofs do not
/// influence the result.
pub fn settle_match(input: SettleMatchInput) -> (out: SettleMatchOutput)
    ensures
        out.n_directives == 2,
        out.settlement_directives@ == settlement_directives_spec(input.match_details),
{
    let m = input.match_details;
    let mut directives: [SettlementDirective; 4] = [SettlementDirective {
        order_id: 0,
        amount: 0,
        asset_type: 0,
    }; 4];
    directives[0] = SettlementDirective {
        order_id: m.buy_order_id,
        amount: m.matched_size.wrapping_mul(m.matched_price),
        asset_type: ASSET_NATIVE,
    };
    directives[1] = SettlementDirective {
        order_id: m.sell_order_id,
        amount: m.matched_size,
        asset_type: ASSET_TOKEN,
    };
    proof {
        assert(directives@ =~= settlement_directives_spec(m));
    }
    SettleMatchOutput { settlement_directives: directives, n_directives: 2 }
}

/// Settlement ignores the deposit proofs: two requests for the same match
/// settle identically, whatever proofs they carry.
pub proof fn lemma_settlement_ignores_proofs(a: SettleMatchInput, b: SettleMatchInput)
    requires
        a.match_details == b.match_details,
    ensures
        settlement_directives_spec(a.match_details) == settlement_directives_spec(
            b.match_details,
        ),
{
}

} // verus!
