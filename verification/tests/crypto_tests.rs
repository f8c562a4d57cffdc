//! Behaviour that leans on the cryptographic primitives: the short address
//! hash really digests the whole address, construction against a non-point
//! recipient key is refused, and the payment intent id binds into its memo.

use memo_types::{
    encode, AccountKey, AuthenticatedSenderMemo, AuthenticatedSenderWithPaymentIntentIdMemo,
    MemoType, PublicAddress, RistrettoPrivate, RistrettoPublic, SenderMemoCredential,
    ShortAddressHash,
};

fn account(seed: u8) -> AccountKey {
    let view = RistrettoPrivate::from_bytes(vec![seed; 32]).unwrap();
    let spend = RistrettoPrivate::from_bytes(vec![seed.wrapping_add(1); 32]).unwrap();
    AccountKey::new(&view, &spend)
}

#[test]
fn test_short_hash_reads_past_its_own_width() {
    // Two addresses whose key bytes agree on the first 16 bytes and differ
    // only later: a hash that merely truncated its input would collide.
    let mut view1 = vec![1u8; 32];
    let mut view2 = vec![1u8; 32];
    view1[20] = 9;
    view2[20] = 10;
    let spend = vec![2u8; 32];
    let addr1 = PublicAddress::new(
        RistrettoPublic::from_bytes(view1).unwrap(),
        RistrettoPublic::from_bytes(spend.clone()).unwrap(),
    );
    let addr2 = PublicAddress::new(
        RistrettoPublic::from_bytes(view2).unwrap(),
        RistrettoPublic::from_bytes(spend).unwrap(),
    );
    assert_ne!(
        ShortAddressHash::of_address(&addr1),
        ShortAddressHash::of_address(&addr2)
    );
}

#[test]
fn test_new_checked_rejects_non_point_recipient_key() {
    let alice = account(2);
    let cred = SenderMemoCredential::from_account(&alice);
    let tx_public_key = RistrettoPublic::from_bytes(vec![4u8; 32]).unwrap();

    // All-ones bytes exceed the field modulus: not a canonical encoding.
    let bad_key = RistrettoPublic::from_bytes(vec![0xFFu8; 32]).unwrap();
    assert!(AuthenticatedSenderMemo::new_checked(&cred, &bad_key, &tx_public_key).is_none());

    let bob = account(20);
    let bob_addr = bob.default_subaddress();
    let built = AuthenticatedSenderMemo::new_checked(
        &cred,
        bob_addr.view_public_key(),
        &tx_public_key,
    )
    .unwrap();
    let direct = AuthenticatedSenderMemo::new(&cred, bob_addr.view_public_key(), &tx_public_key);
    assert_eq!(built, direct);
}

#[test]
fn test_payment_intent_id_binds_and_round_trips() {
    let alice = account(6);
    let cred = SenderMemoCredential::from_account(&alice);
    let alice_addr = alice.default_subaddress();
    let bob = account(30);
    let bob_addr = bob.default_subaddress();
    let tx_public_key = RistrettoPublic::from_bytes(vec![4u8; 32]).unwrap();

    let memo = AuthenticatedSenderWithPaymentIntentIdMemo::new(
        &cred,
        bob_addr.view_public_key(),
        &tx_public_key,
        9u64,
    );
    assert_eq!(memo.payment_intent_id(), 9u64);
    assert_eq!(
        memo.sender_address_hash(),
        ShortAddressHash::of_address(&alice_addr)
    );
    assert!(memo.validate(
        &alice_addr,
        &bob.default_subaddress_view_private(),
        &tx_public_key
    ));
    match MemoType::classify(&encode(&memo)).unwrap() {
        MemoType::AuthenticatedSenderWithPaymentIntentId(m) => {
            assert_eq!(m, memo);
            assert_eq!(m.payment_intent_id(), 9u64);
        }
        _ => panic!("unexpected deserialization"),
    }
}

#[test]
fn test_authentication_soundness_helper() {
    let alice = account(8);
    let bob = account(50);
    let tx_public_key = RistrettoPublic::from_bytes(vec![12u8; 32]).unwrap();
    assert!(memo_types::authenticated_sender::authenticated_sender_soundness(
        &alice,
        &bob,
        &tx_public_key
    ));
}
