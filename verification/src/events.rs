//! The externally visible events, one per computation kind. Each carries the
//! still-encrypted result blocks verbatim and the session nonce a client
//! needs, with its private key, to decrypt them. This core never decrypts.

use vstd::prelude::*;

verus! {

/// The demonstration sum, encrypted.
#[derive(Clone, Copy, PartialEq, Eq, Debug)]
pub struct SumEvent {
    pub sum: [u8; 32],
    pub nonce: [u8; 16],
}

/// The relayed offer, encrypted.
#[derive(Clone, Copy, PartialEq, Eq, Debug)]
pub struct RelayOfferClonedEvent {
    pub cloned_offer: [u8; 32],
    pub nonce: [u8; 16],
}

/// The processed native deposit, encrypted.
#[derive(Clone, Copy, PartialEq, Eq, Debug)]
pub struct ConfidentialDepositNativeEvent {
    pub processed_amount: [u8; 32],
    pub nonce: [u8; 16],
}

/// The processed token deposit on an externally originated offer, encrypted.
#[derive(Clone, Copy, PartialEq, Eq, Debug)]
pub struct InterchainOriginEvmDepositSellerSplEvent {
    pub processed_offer_id: [u8; 32],
    pub processed_amount: [u8; 32],
    pub nonce: [u8; 16],
}

/// The finalized externally originated offer, encrypted.
#[derive(Clone, Copy, PartialEq, Eq, Debug)]
pub struct FinalizeInterchainOriginEvmOfferEvent {
    pub finalized_offer_id: [u8; 32],
    pub nonce: [u8; 16],
}

/// The processed native seller deposit, encrypted.
#[derive(Clone, Copy, PartialEq, Eq, Debug)]
pub struct DepositSellerNativeEvent {
    pub processed_offer_id: [u8; 32],
    pub processed_amount: [u8; 32],
    pub nonce: [u8; 16],
}

/// The processed token seller deposit, encrypted.
#[derive(Clone, Copy, PartialEq, Eq, Debug)]
pub struct DepositSellerSplEvent {
    pub processed_offer_id: [u8; 32],
    pub processed_amount: [u8; 32],
    pub nonce: [u8; 16],
}

/// The finalized same-chain offer, encrypted.
#[derive(Clone, Copy, PartialEq, Eq, Debug)]
pub struct FinalizeIntrachainOfferEvent {
    pub finalized_offer_id: [u8; 32],
    pub nonce: [u8; 16],
}

/// The digest of a validated order, encrypted.
#[derive(Clone, Copy, PartialEq, Eq, Debug)]
pub struct SubmitOrderEvent {
    pub order_digest: [u8; 32],
    pub nonce: [u8; 16],
}

/// The matching engine's result: matches and residuals concatenated, block
/// by block, encrypted.
#[derive(Clone, PartialEq, Eq, Debug)]
pub struct MatchOrdersEvent {
    pub ciphertexts: Vec<[u8; 32]>,
    pub nonce: [u8; 16],
}

/// The cancelled order id, encrypted.
#[derive(Clone, Copy, PartialEq, Eq, Debug)]
pub struct CancelOrderEvent {
    pub cancelled_order_id: [u8; 32],
    pub nonce: [u8; 16],
}

/// The settlement directives, block by block, encrypted.
#[derive(Clone, Copy, PartialEq, Eq, Debug)]
pub struct SettleMatchEvent {
    pub ciphertexts: [[u8; 32]; 13],
    pub nonce: [u8; 16],
}

} // verus!
