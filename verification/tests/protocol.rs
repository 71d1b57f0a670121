use confidential_cross_chain_exchange::errors::ErrorCode;
use confidential_cross_chain_exchange::gateway::{Argument, CallbackKind, Gateway};
use confidential_cross_chain_exchange::publisher::{
    add_together_callback, cancel_order_callback, match_orders_callback, nonce_to_le_bytes,
    settle_match_callback, submit_order_callback, ComputationOutputs, SharedEncryptedStruct,
};
use confidential_cross_chain_exchange::requests;

#[test]
fn queue_without_cluster_is_refused() {
    let mut g = Gateway::new();
    let req = requests::cancel_order(1, [1u8; 32], [2u8; 32], [3u8; 32], 99);
    assert_eq!(g.queue(&req), Err(ErrorCode::ClusterNotSet));
}

#[test]
fn queue_and_deliver_round_trip() {
    let mut g = Gateway::new();
    g.set_cluster();
    let req = requests::submit_order(
        10,
        [1u8; 32],
        [2u8; 32],
        [3u8; 32],
        [4u8; 32],
        [5u8; 32],
        [6u8; 32],
        77,
    );
    assert_eq!(g.queue(&req), Ok(()));
    assert_eq!(g.deliver(10), Ok(CallbackKind::SubmitOrder));
}

#[test]
fn duplicate_ticket_is_refused() {
    let mut g = Gateway::new();
    g.set_cluster();
    let req = requests::relay_offer_clone(5, [1u8; 32], [2u8; 32], 3);
    assert_eq!(g.queue(&req), Ok(()));
    let again = requests::confidential_deposit_native(5, [9u8; 32], [8u8; 32], 7);
    assert_eq!(g.queue(&again), Err(ErrorCode::DuplicateTicket));
}

#[test]
fn deliver_unknown_ticket_is_refused() {
    let mut g = Gateway::new();
    g.set_cluster();
    assert_eq!(g.deliver(1234), Err(ErrorCode::UnknownTicket));
}

#[test]
fn ticket_delivers_exactly_once() {
    let mut g = Gateway::new();
    g.set_cluster();
    let req = requests::finalize_intrachain_offer(3, [1u8; 32], [2u8; 32], 9);
    assert_eq!(g.queue(&req), Ok(()));
    assert_eq!(g.deliver(3), Ok(CallbackKind::FinalizeIntrachainOffer));
    assert_eq!(g.deliver(3), Err(ErrorCode::UnknownTicket));
}

#[test]
fn consumed_ticket_cannot_be_reused() {
    let mut g = Gateway::new();
    g.set_cluster();
    let req = requests::deposit_seller_native(8, [1u8; 32], [2u8; 32], [3u8; 32], 4);
    assert_eq!(g.queue(&req), Ok(()));
    assert_eq!(g.deliver(8), Ok(CallbackKind::DepositSellerNative));
    let again = requests::deposit_seller_spl(8, [5u8; 32], [6u8; 32], [7u8; 32], 8);
    assert_eq!(g.queue(&again), Err(ErrorCode::DuplicateTicket));
}

#[test]
fn independent_tickets_deliver_out_of_order() {
    let mut g = Gateway::new();
    g.set_cluster();
    let a = requests::add_together(1, [1u8; 32], [2u8; 32], [3u8; 32], 4);
    let b = requests::finalize_interchain_origin_evm_offer(2, [5u8; 32], [6u8; 32], 7);
    assert_eq!(g.queue(&a), Ok(()));
    assert_eq!(g.queue(&b), Ok(()));
    assert_eq!(g.deliver(2), Ok(CallbackKind::FinalizeInterchainOriginEvmOffer));
    assert_eq!(g.deliver(1), Ok(CallbackKind::AddTogether));
}

#[test]
fn request_arguments_keep_circuit_order() {
    let req = requests::submit_order(
        10,
        [1u8; 32],
        [2u8; 32],
        [3u8; 32],
        [4u8; 32],
        [5u8; 32],
        [6u8; 32],
        77,
    );
    assert_eq!(req.ticket, 10);
    assert_eq!(req.continuation, CallbackKind::SubmitOrder);
    assert_eq!(
        req.encrypted_args,
        vec![
            Argument::ArcisPubkey([6u8; 32]),
            Argument::PlaintextU128(77),
            Argument::EncryptedU64([1u8; 32]),
            Argument::EncryptedU8([2u8; 32]),
            Argument::EncryptedU64([3u8; 32]),
            Argument::EncryptedU64([4u8; 32]),
            Argument::EncryptedU64([5u8; 32]),
        ]
    );
}

#[test]
fn settle_request_carries_proof_slots() {
    let proofs = [[11u8; 32], [12u8; 32], [13u8; 32], [14u8; 32]];
    let req = requests::settle_match(
        20,
        [1u8; 32],
        [2u8; 32],
        [3u8; 32],
        [4u8; 32],
        proofs,
        4,
        [9u8; 32],
        5,
    );
    assert_eq!(req.continuation, CallbackKind::SettleMatch);
    assert_eq!(req.encrypted_args.len(), 11);
    assert_eq!(req.encrypted_args[6], Argument::PlaintextU8(4));
    assert_eq!(req.encrypted_args[7], Argument::EncryptedU64([11u8; 32]));
    assert_eq!(req.encrypted_args[10], Argument::EncryptedU64([14u8; 32]));
}

#[test]
fn match_request_carries_batch_count() {
    let req = requests::match_orders(
        30,
        [[1u8; 32]],
        [[2u8; 32]],
        [[3u8; 32]],
        [[4u8; 32]],
        [[5u8; 32]],
        2,
        [6u8; 32],
        7,
    );
    assert_eq!(req.continuation, CallbackKind::MatchOrders);
    assert_eq!(req.encrypted_args[2], Argument::PlaintextU8(2));
    assert_eq!(req.encrypted_args.len(), 8);
}

#[test]
fn nonce_bytes_are_little_endian() {
    assert_eq!(nonce_to_le_bytes(1), [
        1u8, 0, 0, 0, 0, 0, 0, 0, 0, 0, 0, 0, 0, 0, 0, 0
    ]);
    assert_eq!(nonce_to_le_bytes(0x0102030405060708090a0b0c0d0e0f10), [
        0x10, 0x0f, 0x0e, 0x0d, 0x0c, 0x0b, 0x0a, 0x09, 0x08, 0x07, 0x06, 0x05, 0x04, 0x03,
        0x02, 0x01
    ]);
    assert_eq!(nonce_to_le_bytes(42), 42u128.to_le_bytes());
    assert_eq!(nonce_to_le_bytes(u128::MAX), [0xffu8; 16]);
}

#[test]
fn publisher_copies_blocks_on_success() {
    let out = ComputationOutputs::Success(SharedEncryptedStruct {
        ciphertexts: [[7u8; 32]],
        nonce: 1,
    });
    let ev = submit_order_callback(out).unwrap();
    assert_eq!(ev.order_digest, [7u8; 32]);
    assert_eq!(ev.nonce, 1u128.to_le_bytes());

    let sum = add_together_callback(ComputationOutputs::Success(SharedEncryptedStruct {
        ciphertexts: [[3u8; 32]],
        nonce: 500,
    }))
    .unwrap();
    assert_eq!(sum.sum, [3u8; 32]);
    assert_eq!(sum.nonce, 500u128.to_le_bytes());

    let cancel = cancel_order_callback(ComputationOutputs::Success(SharedEncryptedStruct {
        ciphertexts: [[9u8; 32]],
        nonce: 2,
    }))
    .unwrap();
    assert_eq!(cancel.cancelled_order_id, [9u8; 32]);
}

#[test]
fn publisher_copies_match_blocks() {
    let mut blocks = [[0u8; 32]; 20];
    for (i, block) in blocks.iter_mut().enumerate() {
        *block = [i as u8; 32];
    }
    let ev = match_orders_callback(ComputationOutputs::Success(SharedEncryptedStruct {
        ciphertexts: blocks,
        nonce: 3,
    }))
    .unwrap();
    assert_eq!(ev.ciphertexts.len(), 20);
    for (i, block) in ev.ciphertexts.iter().enumerate() {
        assert_eq!(*block, [i as u8; 32]);
    }
    assert_eq!(ev.nonce, 3u128.to_le_bytes());
}

#[test]
fn publisher_copies_settlement_blocks() {
    let mut blocks = [[0u8; 32]; 13];
    for (i, block) in blocks.iter_mut().enumerate() {
        *block = [(100 + i) as u8; 32];
    }
    let ev = settle_match_callback(ComputationOutputs::Success(SharedEncryptedStruct {
        ciphertexts: blocks,
        nonce: 4,
    }))
    .unwrap();
    assert_eq!(ev.ciphertexts, blocks);
    assert_eq!(ev.nonce, 4u128.to_le_bytes());
}

#[test]
fn publisher_surfaces_abort() {
    let aborted: ComputationOutputs<SharedEncryptedStruct<1>> = ComputationOutputs::Aborted;
    assert_eq!(submit_order_callback(aborted), Err(ErrorCode::AbortedComputation));
    let aborted20: ComputationOutputs<SharedEncryptedStruct<20>> = ComputationOutputs::Aborted;
    assert_eq!(match_orders_callback(aborted20), Err(ErrorCode::AbortedComputation));
}
