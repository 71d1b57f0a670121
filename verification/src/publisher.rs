//! The result publisher: turns a delivered computation result into the event
//! for its kind, copying the ciphertext blocks verbatim, or surfaces the
//! abort as an error with no event.

use vstd::prelude::*;
use crate::errors::ErrorCode;
use crate::events::{
    CancelOrderEvent, ConfidentialDepositNativeEvent, DepositSellerNativeEvent,
    DepositSellerSplEvent, FinalizeInterchainOriginEvmOfferEvent, FinalizeIntrachainOfferEvent,
    InterchainOriginEvmDepositSellerSplEvent, MatchOrdersEvent, RelayOfferClonedEvent,
    SettleMatchEvent, SubmitOrderEvent, SumEvent,
};

verus! {

broadcast use vstd::array::group_array_axioms;

/// An encrypted computation result: `N` opaque 32-byte blocks and the session
/// nonce they were encrypted under.
#[derive(Clone, Copy, PartialEq, Eq, Debug)]
pub struct SharedEncryptedStruct<const N: usize> {
    pub ciphertexts: [[u8; 32]; N],
    pub nonce: u128,
}

/// What the cluster delivers for a computation: its encrypted output, or the
/// report that the computation aborted.
#[derive(Clone, Copy, PartialEq, Eq, Debug)]
pub enum ComputationOutputs<T> {
    Success(T),
    Aborted,
}

/// The little-endian bytes of a 128-bit session nonce, as events carry it.
pub open spec fn nonce_le_bytes(x: u128) -> Seq<u8> {
    seq![
        (x & 0xff) as u8,
        ((x >> 8) & 0xff) as u8,
        ((x >> 16) & 0xff) as u8,
        ((x >> 24) & 0xff) as u8,
        ((x >> 32) & 0xff) as u8,
        ((x >> 40) & 0xff) as u8,
        ((x >> 48) & 0xff) as u8,
        ((x >> 56) & 0xff) as u8,
        ((x >> 64) & 0xff) as u8,
        ((x >> 72) & 0xff) as u8,
        ((x >> 80) & 0xff) as u8,
        ((x >> 88) & 0xff) as u8,
        ((x >> 96) & 0xff) as u8,
        ((x >> 104) & 0xff) as u8,
        ((x >> 112) & 0xff) as u8,
        ((x >> 120) & 0xff) as u8,
    ]
}

/// Serializes a nonce to its little-endian bytes.
pub fn nonce_to_le_bytes(x: u128) -> (r: [u8; 16])
    ensures
        r@ == nonce_le_bytes(x),
{
    let mut r: [u8; 16] = [0u8; 16];
    r[0] = (x & 0xff) as u8;
    r[1] = ((x >> 8) & 0xff) as u8;
    r[2] = ((x >> 16) & 0xff) as u8;
    r[3] = ((x >> 24) & 0xff) as u8;
    r[4] = ((x >> 32) & 0xff) as u8;
    r[5] = ((x >> 40) & 0xff) as u8;
    r[6] = ((x >> 48) & 0xff) as u8;
    r[7] = ((x >> 56) & 0xff) as u8;
    r[8] = ((x >> 64) & 0xff) as u8;
    r[9] = ((x >> 72) & 0xff) as u8;
    r[10] = ((x >> 80) & 0xff) as u8;
    r[11] = ((x >> 88) & 0xff) as u8;
    r[12] = ((x >> 96) & 0xff) as u8;
    r[13] = ((x >> 104) & 0xff) as u8;
    r[14] = ((x >> 112) & 0xff) as u8;
    r[15] = ((x >> 120) & 0xff) as u8;
    proof {
        assert(r@ =~= nonce_le_bytes(x));
    }
    r
}

/// The event for a delivered sum: block 0 and the nonce, verbatim.
pub open spec fn is_sum_event(ev: SumEvent, o: SharedEncryptedStruct<1>) -> bool {
    ev.sum == o.ciphertexts@[0] && ev.nonce@ == nonce_le_bytes(o.nonce)
}

/// Publishes the sum, or surfaces the abort with no event.
pub fn add_together_callback(output: ComputationOutputs<SharedEncryptedStruct<1>>) -> (r: Result<
    SumEvent,
    ErrorCode,
>)
    ensures
        output matches ComputationOutputs::Success(o) ==> r matches Ok(ev) && is_sum_event(ev, o),
        output matches ComputationOutputs::Aborted ==> r == Err::<SumEvent, ErrorCode>(
            ErrorCode::AbortedComputation,
        ),
{
    let o = match output {
        ComputationOutputs::Success(o) => o,
        _ => {
            return Err(ErrorCode::AbortedComputation);
        },
    };
    Ok(SumEvent { sum: o.ciphertexts[0], nonce: nonce_to_le_bytes(o.nonce) })
}

/// The event for a relayed offer: block 0 and the nonce, verbatim.
pub open spec fn is_relay_offer_cloned_event(
    ev: RelayOfferClonedEvent,
    o: SharedEncryptedStruct<1>,
) -> bool {
    ev.cloned_offer == o.ciphertexts@[0] && ev.nonce@ == nonce_le_bytes(o.nonce)
}

/// Publishes the relayed offer, or surfaces the abort with no event.
pub fn relay_offer_clone_callback(output: ComputationOutputs<SharedEncryptedStruct<1>>) -> (r:
    Result<RelayOfferClonedEvent, ErrorCode>)
    ensures
        output matches ComputationOutputs::Success(o) ==> r matches Ok(ev)
            && is_relay_offer_cloned_event(ev, o),
        output matches ComputationOutputs::Aborted ==> r == Err::<
            RelayOfferClonedEvent,
            ErrorCode,
        >(ErrorCode::AbortedComputation),
{
    let o = match output {
        ComputationOutputs::Success(o) => o,
        _ => {
            return Err(ErrorCode::AbortedComputation);
        },
    };
    Ok(RelayOfferClonedEvent { cloned_offer: o.ciphertexts[0], nonce: nonce_to_le_bytes(o.nonce) })
}

/// The event for a processed native deposit: block 0 and the nonce, verbatim.
pub open spec fn is_confidential_deposit_native_event(
    ev: ConfidentialDepositNativeEvent,
    o: SharedEncryptedStruct<1>,
) -> bool {
    ev.processed_amount == o.ciphertexts@[0] && ev.nonce@ == nonce_le_bytes(o.nonce)
}

/// Publishes the processed native deposit, or surfaces the abort.
pub fn confidential_deposit_native_callback(
    output: ComputationOutputs<SharedEncryptedStruct<1>>,
) -> (r: Result<ConfidentialDepositNativeEvent, ErrorCode>)
    ensures
        output matches ComputationOutputs::Success(o) ==> r matches Ok(ev)
            && is_confidential_deposit_native_event(ev, o),
        output matches ComputationOutputs::Aborted ==> r == Err::<
            ConfidentialDepositNativeEvent,
            ErrorCode,
        >(ErrorCode::AbortedComputation),
{
    let o = match output {
        ComputationOutputs::Success(o) => o,
        _ => {
            return Err(ErrorCode::AbortedComputation);
        },
    };
    Ok(
        ConfidentialDepositNativeEvent {
            processed_amount: o.ciphertexts[0],
            nonce: nonce_to_le_bytes(o.nonce),
        },
    )
}

/// The event for a processed token deposit on an externally originated
/// offer: blocks 0 and 1 and the nonce, verbatim.
pub open spec fn is_interchain_origin_evm_deposit_seller_spl_event(
    ev: InterchainOriginEvmDepositSellerSplEvent,
    o: SharedEncryptedStruct<2>,
) -> bool {
    ev.processed_offer_id == o.ciphertexts@[0] && ev.processed_amount == o.ciphertexts@[1]
        && ev.nonce@ == nonce_le_bytes(o.nonce)
}

/// Publishes the processed deposit, or surfaces the abort.
pub fn interchain_origin_evm_deposit_seller_spl_callback(
    output: ComputationOutputs<SharedEncryptedStruct<2>>,
) -> (r: Result<InterchainOriginEvmDepositSellerSplEvent, ErrorCode>)
    ensures
        output matches ComputationOutputs::Success(o) ==> r matches Ok(ev)
            && is_interchain_origin_evm_deposit_seller_spl_event(ev, o),
        output matches ComputationOutputs::Aborted ==> r == Err::<
            InterchainOriginEvmDepositSellerSplEvent,
            ErrorCode,
        >(ErrorCode::AbortedComputation),
{
    let o = match output {
        ComputationOutputs::Success(o) => o,
        _ => {
            return Err(ErrorCode::AbortedComputation);
        },
    };
    Ok(
        InterchainOriginEvmDepositSellerSplEvent {
            processed_offer_id: o.ciphertexts[0],
            processed_amount: o.ciphertexts[1],
            nonce: nonce_to_le_bytes(o.nonce),
        },
    )
}

/// The event for a finalized externally originated offer: block 0 and the
/// nonce, verbatim.
pub open spec fn is_finalize_interchain_origin_evm_offer_event(
    ev: FinalizeInterchainOriginEvmOfferEvent,
    o: SharedEncryptedStruct<1>,
) -> bool {
    ev.finalized_offer_id == o.ciphertexts@[0] && ev.nonce@ == nonce_le_bytes(o.nonce)
}

/// Publishes the finalized offer, or surfaces the abort.
pub fn finalize_interchain_origin_evm_offer_callback(
    output: ComputationOutputs<SharedEncryptedStruct<1>>,
) -> (r: Result<FinalizeInterchainOriginEvmOfferEvent, ErrorCode>)
    ensures
        output matches ComputationOutputs::Success(o) ==> r matches Ok(ev)
            && is_finalize_interchain_origin_evm_offer_event(ev, o),
        output matches ComputationOutputs::Aborted ==> r == Err::<
            FinalizeInterchainOriginEvmOfferEvent,
            ErrorCode,
        >(ErrorCode::AbortedComputation),
{
    let o = match output {
        ComputationOutputs::Success(o) => o,
        _ => {
            return Err(ErrorCode::AbortedComputation);
        },
    };
    Ok(
        FinalizeInterchainOriginEvmOfferEvent {
            finalized_offer_id: o.ciphertexts[0],
            nonce: nonce_to_le_bytes(o.nonce),
        },
    )
}

/// The event for a processed native seller deposit: blocks 0 and 1 and the
/// nonce, verbatim.
pub open spec fn is_deposit_seller_native_event(
    ev: DepositSellerNativeEvent,
    o: SharedEncryptedStruct<2>,
) -> bool {
    ev.processed_offer_id == o.ciphertexts@[0] && ev.processed_amount == o.ciphertexts@[1]
        && ev.nonce@ == nonce_le_bytes(o.nonce)
}

/// Publishes the processed deposit, or surfaces the abort.
pub fn deposit_seller_native_callback(output: ComputationOutputs<SharedEncryptedStruct<2>>) -> (r:
    Result<DepositSellerNativeEvent, ErrorCode>)
    ensures
        output matches ComputationOutputs::Success(o) ==> r matches Ok(ev)
            && is_deposit_seller_native_event(ev, o),
        output matches ComputationOutputs::Aborted ==> r == Err::<
            DepositSellerNativeEvent,
            ErrorCode,
        >(ErrorCode::AbortedComputation),
{
    let o = match output {
        ComputationOutputs::Success(o) => o,
        _ => {
            return Err(ErrorCode::AbortedComputation);
        },
    };
    Ok(
        DepositSellerNativeEvent {
            processed_offer_id: o.ciphertexts[0],
            processed_amount: o.ciphertexts[1],
            nonce: nonce_to_le_bytes(o.nonce),
        },
    )
}

/// The event for a processed token seller deposit: blocks 0 and 1 and the
/// nonce, verbatim.
pub open spec fn is_deposit_seller_spl_event(
    ev: DepositSellerSplEvent,
    o: SharedEncryptedStruct<2>,
) -> bool {
    ev.processed_offer_id == o.ciphertexts@[0] && ev.processed_amount == o.ciphertexts@[1]
        && ev.nonce@ == nonce_le_bytes(o.nonce)
}

/// Publishes the processed deposit, or surfaces the abort.
pub fn deposit_seller_spl_callback(output: ComputationOutputs<SharedEncryptedStruct<2>>) -> (r:
    Result<DepositSellerSplEvent, ErrorCode>)
    ensures
        output matches ComputationOutputs::Success(o) ==> r matches Ok(ev)
            && is_deposit_seller_spl_event(ev, o),
        output matches ComputationOutputs::Aborted ==> r == Err::<
            DepositSellerSplEvent,
            ErrorCode,
        >(ErrorCode::AbortedComputation),
{
    let o = match output {
        ComputationOutputs::Success(o) => o,
        _ => {
            return Err(ErrorCode::AbortedComputation);
        },
    };
    Ok(
        DepositSellerSplEvent {
            processed_offer_id: o.ciphertexts[0],
            processed_amount: o.ciphertexts[1],
            nonce: nonce_to_le_bytes(o.nonce),
        },
    )
}

/// The event for a finalized same-chain offer: block 0 and the nonce,
/// verbatim.
pub open spec fn is_finalize_intrachain_offer_event(
    ev: FinalizeIntrachainOfferEvent,
    o: SharedEncryptedStruct<1>,
) -> bool {
    ev.finalized_offer_id == o.ciphertexts@[0] && ev.nonce@ == nonce_le_bytes(o.nonce)
}

/// Publishes the finalized offer, or surfaces the abort.
pub fn finalize_intrachain_offer_callback(
    output: ComputationOutputs<SharedEncryptedStruct<1>>,
) -> (r: Result<FinalizeIntrachainOfferEvent, ErrorCode>)
    ensures
        output matches ComputationOutputs::Success(o) ==> r matches Ok(ev)
            && is_finalize_intrachain_offer_event(ev, o),
        output matches ComputationOutputs::Aborted ==> r == Err::<
            FinalizeIntrachainOfferEvent,
            ErrorCode,
        >(ErrorCode::AbortedComputation),
{
    let o = match output {
        ComputationOutputs::Success(o) => o,
        _ => {
            return Err(ErrorCode::AbortedComputation);
        },
    };
    Ok(
        FinalizeIntrachainOfferEvent {
            finalized_offer_id: o.ciphertexts[0],
            nonce: nonce_to_le_bytes(o.nonce),
        },
    )
}

/// The event for a validated order: its digest block and the nonce, verbatim.
pub open spec fn is_submit_order_event(ev: SubmitOrderEvent, o: SharedEncryptedStruct<1>) -> bool {
    ev.order_digest == o.ciphertexts@[0] && ev.nonce@ == nonce_le_bytes(o.nonce)
}

/// Publishes the order digest, or surfaces the abort.
pub fn submit_order_callback(output: ComputationOutputs<SharedEncryptedStruct<1>>) -> (r: Result<
    SubmitOrderEvent,
    ErrorCode,
>)
    ensures
        output matches ComputationOutputs::Success(o) ==> r matches Ok(ev)
            && is_submit_order_event(ev, o),
        output matches ComputationOutputs::Aborted ==> r == Err::<SubmitOrderEvent, ErrorCode>(
            ErrorCode::AbortedComputation,
        ),
{
    let o = match output {
        ComputationOutputs::Success(o) => o,
        _ => {
            return Err(ErrorCode::AbortedComputation);
        },
    };
    Ok(SubmitOrderEvent { order_digest: o.ciphertexts[0], nonce: nonce_to_le_bytes(o.nonce) })
}

/// The event for a matching result: all twenty blocks in order and the
/// nonce, verbatim.
pub open spec fn is_match_orders_event(
    ev: MatchOrdersEvent,
    o: SharedEncryptedStruct<20>,
) -> bool {
    ev.ciphertexts@ == o.ciphertexts@ && ev.nonce@ == nonce_le_bytes(o.nonce)
}

/// Publishes the matching result, or surfaces the abort.
pub fn match_orders_callback(output: ComputationOutputs<SharedEncryptedStruct<20>>) -> (r: Result<
    MatchOrdersEvent,
    ErrorCode,
>)
    ensures
        output matches ComputationOutputs::Success(o) ==> r matches Ok(ev)
            && is_match_orders_event(ev, o),
        output matches ComputationOutputs::Aborted ==> r == Err::<MatchOrdersEvent, ErrorCode>(
            ErrorCode::AbortedComputation,
        ),
{
    let o = match output {
        ComputationOutputs::Success(o) => o,
        _ => {
            return Err(ErrorCode::AbortedComputation);
        },
    };
    let mut blocks: Vec<[u8; 32]> = Vec::new();
    let mut i: usize = 0;
    while i < 20
        invariant
            i <= 20,
            blocks@ == o.ciphertexts@.take(i as int),
        decreases 20 - i,
    {
        blocks.push(o.ciphertexts[i]);
        proof {
            assert(blocks@ =~= o.ciphertexts@.take(i as int + 1));
        }
        i += 1;
    }
    proof {
        assert(blocks@ =~= o.ciphertexts@);
    }
    Ok(MatchOrdersEvent { ciphertexts: blocks, nonce: nonce_to_le_bytes(o.nonce) })
}

/// The event for a cancelled order: its id block and the nonce, verbatim.
pub open spec fn is_cancel_order_event(
    ev: CancelOrderEvent,
    o: SharedEncryptedStruct<1>,
) -> bool {
    ev.cancelled_order_id == o.ciphertexts@[0] && ev.nonce@ == nonce_le_bytes(o.nonce)
}

/// Publishes the cancelled order id, or surfaces the abort.
pub fn cancel_order_callback(output: ComputationOutputs<SharedEncryptedStruct<1>>) -> (r: Result<
    CancelOrderEvent,
    ErrorCode,
>)
    ensures
        output matches ComputationOutputs::Success(o) ==> r matches Ok(ev)
            && is_cancel_order_event(ev, o),
        output matches ComputationOutputs::Aborted ==> r == Err::<CancelOrderEvent, ErrorCode>(
            ErrorCode::AbortedComputation,
        ),
{
    let o = match output {
        ComputationOutputs::Success(o) => o,
        _ => {
            return Err(ErrorCode::AbortedComputation);
        },
    };
    Ok(
        CancelOrderEvent {
            cancelled_order_id: o.ciphertexts[0],
            nonce: nonce_to_le_bytes(o.nonce),
        },
    )
}

/// The event for a settlement: all thirteen blocks in order and the nonce,
/// verbatim.
pub open spec fn is_settle_match_event(
    ev: SettleMatchEvent,
    o: SharedEncryptedStruct<13>,
) -> bool {
    ev.ciphertexts == o.ciphertexts && ev.nonce@ == nonce_le_bytes(o.nonce)
}

/// Publishes the settlement directives, or surfaces the abort.
pub fn settle_match_callback(output: ComputationOutputs<SharedEncryptedStruct<13>>) -> (r: Result<
    SettleMatchEvent,
    ErrorCode,
>)
    ensures
        output matches ComputationOutputs::Success(o) ==> r matches Ok(ev)
            && is_settle_match_event(ev, o),
        output matches ComputationOutputs::Aborted ==> r == Err::<SettleMatchEvent, ErrorCode>(
            ErrorCode::AbortedComputation,
        ),
{
    let o = match output {
        ComputationOutputs::Success(o) => o,
        _ => {
            return Err(ErrorCode::AbortedComputation);
        },
    };
    Ok(SettleMatchEvent { ciphertexts: o.ciphertexts, nonce: nonce_to_le_bytes(o.nonce) })
}

} // verus!
