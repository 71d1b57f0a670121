//! The pass-through computations: deposits, offer relays and finalizations,
//! and the demonstration sum. Each copies or combines its decrypted fields
//! and re-encrypts for the same owner; on plain values they are exact copies.

use vstd::prelude::*;

verus! {

/// Two small addends for the demonstration sum.
#[derive(Clone, Copy, PartialEq, Eq, Structural, Debug)]
pub struct InputValues {
    pub v1: u8,
    pub v2: u8,
}

/// Adds the two values as a 16-bit sum; two bytes never overflow it.
pub fn add_together(input: InputValues) -> (sum: u16)
    ensures
        sum == input.v1 as u16 + input.v2 as u16,
{
    input.v1 as u16 + input.v2 as u16
}

/// An offer to relay to the destination chain.
#[derive(Clone, Copy, PartialEq, Eq, Structural, Debug)]
pub struct RelayOfferInput {
    pub offer_id: u64,
}

/// The relayed offer.
#[derive(Clone, Copy, PartialEq, Eq, Structural, Debug)]
pub struct RelayOfferOutput {
    pub cloned_offer: u64,
}

/// Clones an offer id for relaying.
pub fn relay_offer_clone(input: RelayOfferInput) -> (r: RelayOfferOutput)
    ensures
        r.cloned_offer == input.offer_id,
{
    RelayOfferOutput { cloned_offer: input.offer_id }
}

/// A native-asset deposit amount.
#[derive(Clone, Copy, PartialEq, Eq, Structural, Debug)]
pub struct DepositInput {
    pub amount: u64,
}

/// The processed deposit amount.
#[derive(Clone, Copy, PartialEq, Eq, Structural, Debug)]
pub struct DepositOutput {
    pub processed_amount: u64,
}

/// Processes a confidential native deposit: the amount passes through.
pub fn confidential_deposit_native(input: DepositInput) -> (r: DepositOutput)
    ensures
        r.processed_amount == input.amount,
{
    DepositOutput { processed_amount: input.amount }
}

/// A seller's token deposit on an offer originating on an external chain.
#[derive(Clone, Copy, PartialEq, Eq, Structural, Debug)]
pub struct DepositSplInput {
    pub offer_id: u64,
    pub amount: u64,
}

/// The processed token deposit.
#[derive(Clone, Copy, PartialEq, Eq, Structural, Debug)]
pub struct DepositSplOutput {
    pub processed_offer_id: u64,
    pub processed_amount: u64,
}

/// Processes a seller's token deposit for an externally originated offer:
/// both fields pass through.
pub fn interchain_origin_evm_deposit_seller_spl(input: DepositSplInput) -> (r: DepositSplOutput)
    ensures
        r.processed_offer_id == input.offer_id,
        r.processed_amount == input.amount,
{
    DepositSplOutput { processed_offer_id: input.offer_id, processed_amount: input.amount }
}

/// A seller's native-asset deposit on an offer.
#[derive(Clone, Copy, PartialEq, Eq, Structural, Debug)]
pub struct DepositSellerNativeInput {
    pub offer_id: u64,
    pub amount: u64,
}

/// The processed native-asset deposit.
#[derive(Clone, Copy, PartialEq, Eq, Structural, Debug)]
pub struct DepositSellerNativeOutput {
    pub processed_offer_id: u64,
    pub processed_amount: u64,
}

/// Processes a seller's native deposit: both fields pass through.
pub fn deposit_seller_native(input: DepositSellerNativeInput) -> (r: DepositSellerNativeOutput)
    ensures
        r.processed_offer_id == input.offer_id,
        r.processed_amount == input.amount,
{
    DepositSellerNativeOutput { processed_offer_id: input.offer_id, processed_amount: input.amount }
}

/// A seller's token deposit on an offer.
#[derive(Clone, Copy, PartialEq, Eq, Structural, Debug)]
pub struct DepositSellerSPLInput {
    pub offer_id: u64,
    pub amount: u64,
}

/// The processed token deposit.
#[derive(Clone, Copy, PartialEq, Eq, Structural, Debug)]
pub struct DepositSellerSPLOutput {
    pub processed_offer_id: u64,
    pub processed_amount: u64,
}

/// Processes a seller's token deposit: both fields pass through.
pub fn deposit_seller_spl(input: DepositSellerSPLInput) -> (r: DepositSellerSPLOutput)
    ensures
        r.processed_offer_id == input.offer_id,
        r.processed_amount == input.amount,
{
    DepositSellerSPLOutput { processed_offer_id: input.offer_id, processed_amount: input.amount }
}

/// An externally originated offer to finalize.
#[derive(Clone, Copy, PartialEq, Eq, Structural, Debug)]
pub struct FinalizeInterchainInput {
    pub offer_id: u64,
}

/// The finalized offer.
#[derive(Clone, Copy, PartialEq, Eq, Structural, Debug)]
pub struct FinalizeInterchainOutput {
    pub finalized_offer_id: u64,
}

/// Finalizes an externally originated offer: the id passes through.
pub fn finalize_interchain_origin_evm_offer(input: FinalizeInterchainInput) -> (r:
    FinalizeInterchainOutput)
    ensures
        r.finalized_offer_id == input.offer_id,
{
    FinalizeInterchainOutput { finalized_offer_id: input.offer_id }
}

/// A same-chain offer to finalize.
#[derive(Clone, Copy, PartialEq, Eq, Structural, Debug)]
pub struct FinalizeIntrachainInput {
    pub offer_id: u64,
}

/// The finalized offer.
#[derive(Clone, Copy, PartialEq, Eq, Structural, Debug)]
pub struct FinalizeIntrachainOutput {
    pub finalized_offer_id: u64,
}

/// Finalizes a same-chain offer: the id passes through.
pub fn finalize_intrachain_offer(input: FinalizeIntrachainInput) -> (r: FinalizeIntrachainOutput)
    ensures
        r.finalized_offer_id == input.offer_id,
{
    FinalizeIntrachainOutput { finalized_offer_id: input.offer_id }
}

} // verus!
