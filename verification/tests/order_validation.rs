use confidential_cross_chain_exchange::order::{
    cancel_order, normalize_order, submit_order, CancelOrderInput, SubmitOrderInput,
};
use confidential_cross_chain_exchange::transfer::{
    add_together, confidential_deposit_native, deposit_seller_native, deposit_seller_spl,
    finalize_interchain_origin_evm_offer, finalize_intrachain_offer,
    interchain_origin_evm_deposit_seller_spl, relay_offer_clone, DepositInput,
    DepositSellerNativeInput, DepositSellerSPLInput, DepositSplInput, FinalizeInterchainInput,
    FinalizeIntrachainInput, InputValues, RelayOfferInput,
};

fn order(order_id: u64, side: u8, price: u64, size: u64) -> SubmitOrderInput {
    SubmitOrderInput { order_id, side, price, size, expiry: 0 }
}

#[test]
fn validator_clamps_zero_price_and_size() {
    let out = submit_order(order(5, 0, 0, 0));
    assert_eq!(out.order_digest, 5 + 1 + 1 + 0);
}

#[test]
fn validator_clamps_invalid_side() {
    let n = normalize_order(order(9, 7, 3, 4));
    assert_eq!(n.side, 0);
    assert_eq!(n.price, 3);
    assert_eq!(n.size, 4);
    assert_eq!(n.order_id, 9);
    let out = submit_order(order(9, 7, 3, 4));
    assert_eq!(out.order_digest, 9 + 3 + 4 + 0);
}

#[test]
fn validator_keeps_valid_orders() {
    let n = normalize_order(order(1, 1, 100, 10));
    assert_eq!(n, order(1, 1, 100, 10));
}

#[test]
fn scenario_d_digest() {
    let out = submit_order(order(42, 1, 0, 7));
    assert_eq!(out.order_digest, 42 + 1 + 7 + 1);
}

#[test]
fn digest_wraps_around() {
    let out = submit_order(order(u64::MAX, 0, 0, 0));
    assert_eq!(out.order_digest, 1);
}

#[test]
fn cancel_order_echoes_id() {
    let out = cancel_order(CancelOrderInput { order_id: 77, owner_proof: 123456 });
    assert_eq!(out.cancelled_order_id, 77);
}

#[test]
fn add_together_sums() {
    assert_eq!(add_together(InputValues { v1: 3, v2: 4 }), 7);
    assert_eq!(add_together(InputValues { v1: 255, v2: 255 }), 510);
}

#[test]
fn relay_and_deposit_passthroughs() {
    assert_eq!(relay_offer_clone(RelayOfferInput { offer_id: 11 }).cloned_offer, 11);
    assert_eq!(
        confidential_deposit_native(DepositInput { amount: 500 }).processed_amount,
        500
    );
    let spl = interchain_origin_evm_deposit_seller_spl(DepositSplInput {
        offer_id: 8,
        amount: 900,
    });
    assert_eq!(spl.processed_offer_id, 8);
    assert_eq!(spl.processed_amount, 900);
    let native = deposit_seller_native(DepositSellerNativeInput { offer_id: 2, amount: 30 });
    assert_eq!(native.processed_offer_id, 2);
    assert_eq!(native.processed_amount, 30);
    let spl2 = deposit_seller_spl(DepositSellerSPLInput { offer_id: 3, amount: 40 });
    assert_eq!(spl2.processed_offer_id, 3);
    assert_eq!(spl2.processed_amount, 40);
}

#[test]
fn finalize_passthroughs() {
    assert_eq!(
        finalize_interchain_origin_evm_offer(FinalizeInterchainInput { offer_id: 21 })
            .finalized_offer_id,
        21
    );
    assert_eq!(
        finalize_intrachain_offer(FinalizeIntrachainInput { offer_id: 22 }).finalized_offer_id,
        22
    );
}
