//! Request builders: one per instruction kind. Each assembles the exact
//! argument sequence its circuit expects — the client's encryption key, the
//! session nonce, then the encrypted fields and plaintext scalars in circuit
//! order — under the caller-chosen ticket, with the continuation to invoke
//! when the result arrives. Forwarding the request to the cluster is the
//! caller's side of the protocol.

use vstd::prelude::*;
use crate::gateway::{Argument, CallbackKind, ComputationRequest};

verus! {

/// Builds the request for the demonstration sum of two encrypted bytes.
pub fn add_together(
    computation_offset: u64,
    ciphertext_0: [u8; 32],
    ciphertext_1: [u8; 32],
    pub_key: [u8; 32],
    nonce: u128,
) -> (r: ComputationRequest)
    ensures
        r.ticket == computation_offset,
        r.continuation == CallbackKind::AddTogether,
        r.encrypted_args@ == seq![
            Argument::ArcisPubkey(pub_key),
            Argument::PlaintextU128(nonce),
            Argument::EncryptedU8(ciphertext_0),
            Argument::EncryptedU8(ciphertext_1),
        ],
{
    let mut args: Vec<Argument> = Vec::new();
    args.push(Argument::ArcisPubkey(pub_key));
    args.push(Argument::PlaintextU128(nonce));
    args.push(Argument::EncryptedU8(ciphertext_0));
    args.push(Argument::EncryptedU8(ciphertext_1));
    proof {
        assert(args@ =~= seq![
            Argument::ArcisPubkey(pub_key),
            Argument::PlaintextU128(nonce),
            Argument::EncryptedU8(ciphertext_0),
            Argument::EncryptedU8(ciphertext_1),
        ]);
    }
    ComputationRequest {
        ticket: computation_offset,
        encrypted_args: args,
        continuation: CallbackKind::AddTogether,
    }
}

/// Builds the request to clone an encrypted offer id for relaying.
pub fn relay_offer_clone(
    computation_offset: u64,
    ciphertext_offer_id: [u8; 32],
    pub_key: [u8; 32],
    nonce: u128,
) -> (r: ComputationRequest)
    ensures
        r.ticket == computation_offset,
        r.continuation == CallbackKind::RelayOfferClone,
        r.encrypted_args@ == seq![
            Argument::ArcisPubkey(pub_key),
            Argument::PlaintextU128(nonce),
            Argument::EncryptedU64(ciphertext_offer_id),
        ],
{
    let mut args: Vec<Argument> = Vec::new();
    args.push(Argument::ArcisPubkey(pub_key));
    args.push(Argument::PlaintextU128(nonce));
    args.push(Argument::EncryptedU64(ciphertext_offer_id));
    proof {
        assert(args@ =~= seq![
            Argument::ArcisPubkey(pub_key),
            Argument::PlaintextU128(nonce),
            Argument::EncryptedU64(ciphertext_offer_id),
        ]);
    }
    ComputationRequest {
        ticket: computation_offset,
        encrypted_args: args,
        continuation: CallbackKind::RelayOfferClone,
    }
}

/// Builds the request to process an encrypted native deposit amount.
pub fn confidential_deposit_native(
    computation_offset: u64,
    ciphertext_amount: [u8; 32],
    pub_key: [u8; 32],
    nonce: u128,
) -> (r: ComputationRequest)
    ensures
        r.ticket == computation_offset,
        r.continuation == CallbackKind::ConfidentialDepositNative,
        r.encrypted_args@ == seq![
            Argument::ArcisPubkey(pub_key),
            Argument::PlaintextU128(nonce),
            Argument::EncryptedU64(ciphertext_amount),
        ],
{
    let mut args: Vec<Argument> = Vec::new();
    args.push(Argument::ArcisPubkey(pub_key));
    args.push(Argument::PlaintextU128(nonce));
    args.push(Argument::EncryptedU64(ciphertext_amount));
    proof {
        assert(args@ =~= seq![
            Argument::ArcisPubkey(pub_key),
            Argument::PlaintextU128(nonce),
            Argument::EncryptedU64(ciphertext_amount),
        ]);
    }
    ComputationRequest {
        ticket: computation_offset,
        encrypted_args: args,
        continuation: CallbackKind::ConfidentialDepositNative,
    }
}

/// Builds the request for a seller's token deposit on an externally
/// originated offer; the taker's asset preference rides along in plaintext.
pub fn interchain_origin_evm_deposit_seller_spl(
    computation_offset: u64,
    ciphertext_offer_id: [u8; 32],
    ciphertext_amount: [u8; 32],
    pub_key: [u8; 32],
    nonce: u128,
    is_taker_native: bool,
) -> (r: ComputationRequest)
    ensures
        r.ticket == computation_offset,
        r.continuation == CallbackKind::InterchainOriginEvmDepositSellerSpl,
        r.encrypted_args@ == seq![
            Argument::ArcisPubkey(pub_key),
            Argument::PlaintextU128(nonce),
            Argument::EncryptedU64(ciphertext_offer_id),
            Argument::EncryptedU64(ciphertext_amount),
            Argument::PlaintextBool(is_taker_native),
        ],
{
    let mut args: Vec<Argument> = Vec::new();
    args.push(Argument::ArcisPubkey(pub_key));
    args.push(Argument::PlaintextU128(nonce));
    args.push(Argument::EncryptedU64(ciphertext_offer_id));
    args.push(Argument::EncryptedU64(ciphertext_amount));
    args.push(Argument::PlaintextBool(is_taker_native));
    proof {
        assert(args@ =~= seq![
            Argument::ArcisPubkey(pub_key),
            Argument::PlaintextU128(nonce),
            Argument::EncryptedU64(ciphertext_offer_id),
            Argument::EncryptedU64(ciphertext_amount),
            Argument::PlaintextBool(is_taker_native),
        ]);
    }
    ComputationRequest {
        ticket: computation_offset,
        encrypted_args: args,
        continuation: CallbackKind::InterchainOriginEvmDepositSellerSpl,
    }
}

/// Builds the request to finalize an externally originated offer.
pub fn finalize_interchain_origin_evm_offer(
    computation_offset: u64,
    ciphertext_offer_id: [u8; 32],
    pub_key: [u8; 32],
    nonce: u128,
) -> (r: ComputationRequest)
    ensures
        r.ticket == computation_offset,
        r.continuation == CallbackKind::FinalizeInterchainOriginEvmOffer,
        r.encrypted_args@ == seq![
            Argument::ArcisPubkey(pub_key),
            Argument::PlaintextU128(nonce),
            Argument::EncryptedU64(ciphertext_offer_id),
        ],
{
    let mut args: Vec<Argument> = Vec::new();
    args.push(Argument::ArcisPubkey(pub_key));
    args.push(Argument::PlaintextU128(nonce));
    args.push(Argument::EncryptedU64(ciphertext_offer_id));
    proof {
        assert(args@ =~= seq![
            Argument::ArcisPubkey(pub_key),
            Argument::PlaintextU128(nonce),
            Argument::EncryptedU64(ciphertext_offer_id),
        ]);
    }
    ComputationRequest {
        ticket: computation_offset,
        encrypted_args: args,
        continuation: CallbackKind::FinalizeInterchainOriginEvmOffer,
    }
}

/// Builds the request for a seller's native deposit on an offer.
pub fn deposit_seller_native(
    computation_offset: u64,
    ciphertext_offer_id: [u8; 32],
    ciphertext_amount: [u8; 32],
    pub_key: [u8; 32],
    nonce: u128,
) -> (r: ComputationRequest)
    ensures
        r.ticket == computation_offset,
        r.continuation == CallbackKind::DepositSellerNative,
        r.encrypted_args@ == seq![
            Argument::ArcisPubkey(pub_key),
            Argument::PlaintextU128(nonce),
            Argument::EncryptedU64(ciphertext_offer_id),
            Argument::EncryptedU64(ciphertext_amount),
        ],
{
    let mut args: Vec<Argument> = Vec::new();
    args.push(Argument::ArcisPubkey(pub_key));
    args.push(Argument::PlaintextU128(nonce));
    args.push(Argument::EncryptedU64(ciphertext_offer_id));
    args.push(Argument::EncryptedU64(ciphertext_amount));
    proof {
        assert(args@ =~= seq![
            Argument::ArcisPubkey(pub_key),
            Argument::PlaintextU128(nonce),
            Argument::EncryptedU64(ciphertext_offer_id),
            Argument::EncryptedU64(ciphertext_amount),
        ]);
    }
    ComputationRequest {
        ticket: computation_offset,
        encrypted_args: args,
        continuation: CallbackKind::DepositSellerNative,
    }
}

/// Builds the request for a seller's token deposit on an offer.
pub fn deposit_seller_spl(
    computation_offset: u64,
    ciphertext_offer_id: [u8; 32],
    ciphertext_amount: [u8; 32],
    pub_key: [u8; 32],
    nonce: u128,
) -> (r: ComputationRequest)
    ensures
        r.ticket == computation_offset,
        r.continuation == CallbackKind::DepositSellerSpl,
        r.encrypted_args@ == seq![
            Argument::ArcisPubkey(pub_key),
            Argument::PlaintextU128(nonce),
            Argument::EncryptedU64(ciphertext_offer_id),
            Argument::EncryptedU64(ciphertext_amount),
        ],
{
    let mut args: Vec<Argument> = Vec::new();
    args.push(Argument::ArcisPubkey(pub_key));
    args.push(Argument::PlaintextU128(nonce));
    args.push(Argument::EncryptedU64(ciphertext_offer_id));
    args.push(Argument::EncryptedU64(ciphertext_amount));
    proof {
        assert(args@ =~= seq![
            Argument::ArcisPubkey(pub_key),
            Argument::PlaintextU128(nonce),
            Argument::EncryptedU64(ciphertext_offer_id),
            Argument::EncryptedU64(ciphertext_amount),
        ]);
    }
    ComputationRequest {
        ticket: computation_offset,
        encrypted_args: args,
        continuation: CallbackKind::DepositSellerSpl,
    }
}

/// Builds the request to finalize a same-chain offer.
pub fn finalize_intrachain_offer(
    computation_offset: u64,
    ciphertext_offer_id: [u8; 32],
    pub_key: [u8; 32],
    nonce: u128,
) -> (r: ComputationRequest)
    ensures
        r.ticket == computation_offset,
        r.continuation == CallbackKind::FinalizeIntrachainOffer,
        r.encrypted_args@ == seq![
            Argument::ArcisPubkey(pub_key),
            Argument::PlaintextU128(nonce),
            Argument::EncryptedU64(ciphertext_offer_id),
        ],
{
    let mut args: Vec<Argument> = Vec::new();
    args.push(Argument::ArcisPubkey(pub_key));
    args.push(Argument::PlaintextU128(nonce));
    args.push(Argument::EncryptedU64(ciphertext_offer_id));
    proof {
        assert(args@ =~= seq![
            Argument::ArcisPubkey(pub_key),
            Argument::PlaintextU128(nonce),
            Argument::EncryptedU64(ciphertext_offer_id),
        ]);
    }
    ComputationRequest {
        ticket: computation_offset,
        encrypted_args: args,
        continuation: CallbackKind::FinalizeIntrachainOffer,
    }
}

/// Builds the request to validate an order and derive its digest: the five
/// order fields travel encrypted.
pub fn submit_order(
    computation_offset: u64,
    ciphertext_order_id: [u8; 32],
    ciphertext_side: [u8; 32],
    ciphertext_price: [u8; 32],
    ciphertext_size: [u8; 32],
    ciphertext_expiry: [u8; 32],
    pub_key: [u8; 32],
    nonce: u128,
) -> (r: ComputationRequest)
    ensures
        r.ticket == computation_offset,
        r.continuation == CallbackKind::SubmitOrder,
        r.encrypted_args@ == seq![
            Argument::ArcisPubkey(pub_key),
            Argument::PlaintextU128(nonce),
            Argument::EncryptedU64(ciphertext_order_id),
            Argument::EncryptedU8(ciphertext_side),
            Argument::EncryptedU64(ciphertext_price),
            Argument::EncryptedU64(ciphertext_size),
            Argument::EncryptedU64(ciphertext_expiry),
        ],
{
    let mut args: Vec<Argument> = Vec::new();
    args.push(Argument::ArcisPubkey(pub_key));
    args.push(Argument::PlaintextU128(nonce));
    args.push(Argument::EncryptedU64(ciphertext_order_id));
    args.push(Argument::EncryptedU8(ciphertext_side));
    args.push(Argument::EncryptedU64(ciphertext_price));
    args.push(Argument::EncryptedU64(ciphertext_size));
    args.push(Argument::EncryptedU64(ciphertext_expiry));
    proof {
        assert(args@ =~= seq![
            Argument::ArcisPubkey(pub_key),
            Argument::PlaintextU128(nonce),
            Argument::EncryptedU64(ciphertext_order_id),
            Argument::EncryptedU8(ciphertext_side),
            Argument::EncryptedU64(ciphertext_price),
            Argument::EncryptedU64(ciphertext_size),
            Argument::EncryptedU64(ciphertext_expiry),
        ]);
    }
    ComputationRequest {
        ticket: computation_offset,
        encrypted_args: args,
        continuation: CallbackKind::SubmitOrder,
    }
}

/// Builds the request to run the matching engine: the batch count travels in
/// plaintext, each slot's five order fields travel encrypted, slot by slot.
pub fn match_orders(
    computation_offset: u64,
    ciphertext_order_ids: [[u8; 32]; 1],
    ciphertext_sides: [[u8; 32]; 1],
    ciphertext_prices: [[u8; 32]; 1],
    ciphertext_sizes: [[u8; 32]; 1],
    ciphertext_expiries: [[u8; 32]; 1],
    n_orders: u8,
    pub_key: [u8; 32],
    nonce: u128,
) -> (r: ComputationRequest)
    ensures
        r.ticket == computation_offset,
        r.continuation == CallbackKind::MatchOrders,
        r.encrypted_args@ == seq![
            Argument::ArcisPubkey(pub_key),
            Argument::PlaintextU128(nonce),
            Argument::PlaintextU8(n_orders),
            Argument::EncryptedU64(ciphertext_order_ids[0]),
            Argument::EncryptedU8(ciphertext_sides[0]),
            Argument::EncryptedU64(ciphertext_prices[0]),
            Argument::EncryptedU64(ciphertext_sizes[0]),
            Argument::EncryptedU64(ciphertext_expiries[0]),
        ],
{
    let mut args: Vec<Argument> = Vec::new();
    args.push(Argument::ArcisPubkey(pub_key));
    args.push(Argument::PlaintextU128(nonce));
    args.push(Argument::PlaintextU8(n_orders));
    args.push(Argument::EncryptedU64(ciphertext_order_ids[0]));
    args.push(Argument::EncryptedU8(ciphertext_sides[0]));
    args.push(Argument::EncryptedU64(ciphertext_prices[0]));
    args.push(Argument::EncryptedU64(ciphertext_sizes[0]));
    args.push(Argument::EncryptedU64(ciphertext_expiries[0]));
    proof {
        assert(args@ =~= seq![
            Argument::ArcisPubkey(pub_key),
            Argument::PlaintextU128(nonce),
            Argument::PlaintextU8(n_orders),
            Argument::EncryptedU64(ciphertext_order_ids[0]),
            Argument::EncryptedU8(ciphertext_sides[0]),
            Argument::EncryptedU64(ciphertext_prices[0]),
            Argument::EncryptedU64(ciphertext_sizes[0]),
            Argument::EncryptedU64(ciphertext_expiries[0]),
        ]);
    }
    ComputationRequest {
        ticket: computation_offset,
        encrypted_args: args,
        continuation: CallbackKind::MatchOrders,
    }
}

/// Builds the request to cancel an order; the ownership proof travels
/// encrypted beside the order id.
pub fn cancel_order(
    computation_offset: u64,
    ciphertext_order_id: [u8; 32],
    ciphertext_owner_proof: [u8; 32],
    pub_key: [u8; 32],
    nonce: u128,
) -> (r: ComputationRequest)
    ensures
        r.ticket == computation_offset,
        r.continuation == CallbackKind::CancelOrder,
        r.encrypted_args@ == seq![
            Argument::ArcisPubkey(pub_key),
            Argument::PlaintextU128(nonce),
            Argument::EncryptedU64(ciphertext_order_id),
            Argument::EncryptedU64(ciphertext_owner_proof),
        ],
{
    let mut args: Vec<Argument> = Vec::new();
    args.push(Argument::ArcisPubkey(pub_key));
    args.push(Argument::PlaintextU128(nonce));
    args.push(Argument::EncryptedU64(ciphertext_order_id));
    args.push(Argument::EncryptedU64(ciphertext_owner_proof));
    proof {
        assert(args@ =~= seq![
            Argument::ArcisPubkey(pub_key),
            Argument::PlaintextU128(nonce),
            Argument::EncryptedU64(ciphertext_order_id),
            Argument::EncryptedU64(ciphertext_owner_proof),
        ]);
    }
    ComputationRequest {
        ticket: computation_offset,
        encrypted_args: args,
        continuation: CallbackKind::CancelOrder,
    }
}

/// Builds the request to settle a match: the match's four fields travel
/// encrypted, the proof count in plaintext, then the four deposit proof
/// slots.
pub fn settle_match(
    computation_offset: u64,
    ciphertext_buy_order_id: [u8; 32],
    ciphertext_sell_order_id: [u8; 32],
    ciphertext_matched_price: [u8; 32],
    ciphertext_matched_size: [u8; 32],
    ciphertext_deposit_proofs: [[u8; 32]; 4],
    n_deposit_proofs: u8,
    pub_key: [u8; 32],
    nonce: u128,
) -> (r: ComputationRequest)
    ensures
        r.ticket == computation_offset,
        r.continuation == CallbackKind::SettleMatch,
        r.encrypted_args@ == seq![
            Argument::ArcisPubkey(pub_key),
            Argument::PlaintextU128(nonce),
            Argument::EncryptedU64(ciphertext_buy_order_id),
            Argument::EncryptedU64(ciphertext_sell_order_id),
            Argument::EncryptedU64(ciphertext_matched_price),
            Argument::EncryptedU64(ciphertext_matched_size),
            Argument::PlaintextU8(n_deposit_proofs),
            Argument::EncryptedU64(ciphertext_deposit_proofs[0]),
            Argument::EncryptedU64(ciphertext_deposit_proofs[1]),
            Argument::EncryptedU64(ciphertext_deposit_proofs[2]),
            Argument::EncryptedU64(ciphertext_deposit_proofs[3]),
        ],
{
    let mut args: Vec<Argument> = Vec::new();
    args.push(Argument::ArcisPubkey(pub_key));
    args.push(Argument::PlaintextU128(nonce));
    args.push(Argument::EncryptedU64(ciphertext_buy_order_id));
    args.push(Argument::EncryptedU64(ciphertext_sell_order_id));
    args.push(Argument::EncryptedU64(ciphertext_matched_price));
    args.push(Argument::EncryptedU64(ciphertext_matched_size));
    args.push(Argument::PlaintextU8(n_deposit_proofs));
    args.push(Argument::EncryptedU64(ciphertext_deposit_proofs[0]));
    args.push(Argument::EncryptedU64(ciphertext_deposit_proofs[1]));
    args.push(Argument::EncryptedU64(ciphertext_deposit_proofs[2]));
    args.push(Argument::EncryptedU64(ciphertext_deposit_proofs[3]));
    proof {
        assert(args@ =~= seq![
            Argument::ArcisPubkey(pub_key),
            Argument::PlaintextU128(nonce),
            Argument::EncryptedU64(ciphertext_buy_order_id),
            Argument::EncryptedU64(ciphertext_sell_order_id),
            Argument::EncryptedU64(ciphertext_matched_price),
            Argument::EncryptedU64(ciphertext_matched_size),
            Argument::PlaintextU8(n_deposit_proofs),
            Argument::EncryptedU64(ciphertext_deposit_proofs[0]),
            Argument::EncryptedU64(ciphertext_deposit_proofs[1]),
            Argument::EncryptedU64(ciphertext_deposit_proofs[2]),
            Argument::EncryptedU64(ciphertext_deposit_proofs[3]),
        ]);
    }
    ComputationRequest {
        ticket: computation_offset,
        encrypted_args: args,
        continuation: CallbackKind::SettleMatch,
    }
}

} // verus!
