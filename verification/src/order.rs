//! Order validation: clamping of raw order fields and the order digest,
//! plus the cancel-order pass-through.

use vstd::prelude::*;

verus! {

/// A raw order as submitted by a client. `side` is 0 for buy, 1 for sell;
/// any other tag is invalid and is clamped to buy by validation.
#[derive(Clone, Copy, PartialEq, Eq, Structural, Debug)]
pub struct SubmitOrderInput {
    pub order_id: u64,
    pub side: u8,
    pub price: u64,
    pub size: u64,
    pub expiry: u64,
}

/// The deterministic digest derived from a validated order.
#[derive(Clone, Copy, PartialEq, Eq, Structural, Debug)]
pub struct SubmitOrderOutput {
    pub order_digest: u64,
}

/// The normalized form of an order: a zero price or size is clamped to 1,
/// and an invalid side tag is clamped to buy (0). Identity fields pass
/// through unchanged. Validation never rejects.
pub open spec fn normalize_order_spec(o: SubmitOrderInput) -> SubmitOrderInput {
    SubmitOrderInput {
        order_id: o.order_id,
        side: if o.side == 0 || o.side == 1 { o.side } else { 0 },
        price: if o.price == 0 { 1 } else { o.price },
        size: if o.size == 0 { 1 } else { o.size },
        expiry: o.expiry,
    }
}

/// Whether an order already satisfies the validated-order invariant.
pub open spec fn is_normalized(o: SubmitOrderInput) -> bool {
    o.price >= 1 && o.size >= 1 && (o.side == 0 || o.side == 1)
}

/// The order digest: the wrapping 64-bit sum of the order id and the
/// normalized price, size and side tag.
pub open spec fn order_digest_spec(o: SubmitOrderInput) -> u64 {
    let n = normalize_order_spec(o);
    n.order_id.wrapping_add(n.price).wrapping_add(n.size).wrapping_add(n.side as u64)
}

/// Clamps an order's fields to the validated range. Always succeeds.
pub fn normalize_order(o: SubmitOrderInput) -> (r: SubmitOrderInput)
    ensures
        r == normalize_order_spec(o),
        is_normalized(r),
{
    SubmitOrderInput {
        order_id: o.order_id,
        side: if o.side == 0 || o.side == 1 { o.side } else { 0 },
        price: if o.price == 0 { 1 } else { o.price },
        size: if o.size == 0 { 1 } else { o.size },
        expiry: o.expiry,
    }
}

/// Validates an order and returns its digest.
pub fn submit_order(input: SubmitOrderInput) -> (r: SubmitOrderOutput)
    ensures
        r.order_digest == order_digest_spec(input),
{
    let n = normalize_order(input);
    let digest = n
        .order_id
        .wrapping_add(n.price)
        .wrapping_add(n.size)
        .wrapping_add(n.side as u64);
    SubmitOrderOutput { order_digest: digest }
}

/// The validator clamps instead of rejecting: a zero price or size enters
/// the digest as one, an invalid side tag enters as buy, and the digest is
/// the wrapping sum of the order id and the three normalized fields.
pub proof fn lemma_validator_clamps(o: SubmitOrderInput)
    ensures
        o.price == 0 ==> normalize_order_spec(o).price == 1,
        o.size == 0 ==> normalize_order_spec(o).size == 1,
        o.side != 0 && o.side != 1 ==> normalize_order_spec(o).side == 0,
        order_digest_spec(o) == o.order_id.wrapping_add(
            normalize_order_spec(o).price,
        ).wrapping_add(normalize_order_spec(o).size).wrapping_add(
            normalize_order_spec(o).side as u64,
        ),
{
}

/// A request to cancel an order. The ownership proof is carried as an opaque
/// value; this core accepts it without checking it.
#[derive(Clone, Copy, PartialEq, Eq, Structural, Debug)]
pub struct CancelOrderInput {
    pub order_id: u64,
    pub owner_proof: u64,
}

/// The cancelled order's id, echoed back to the caller.
#[derive(Clone, Copy, PartialEq, Eq, Structural, Debug)]
pub struct CancelOrderOutput {
    pub cancelled_order_id: u64,
}

/// Echoes the order id of a cancellation request. The ownership proof is
/// accepted but not checked — a known gap: cancellation is a pure
/// pass-through of the id.
pub fn cancel_order(input: CancelOrderInput) -> (r: CancelOrderOutput)
    ensures
        r.cancelled_order_id == input.order_id,
{
    CancelOrderOutput { cancelled_order_id: input.order_id }
}

} // verus!
