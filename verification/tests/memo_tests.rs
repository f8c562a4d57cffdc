//! The registry and authentication scenarios: round trips through
//! classification, the eight-combination authentication matrix, and the
//! destination memo's field semantics.

use memo_types::{
    encode, AccountKey, AuthenticatedSenderMemo, AuthenticatedSenderWithPaymentRequestIdMemo,
    BurnRedemptionMemo, DestinationMemo, MemoDecodingError, MemoPayload, MemoType,
    RistrettoPrivate, RistrettoPublic, SenderMemoCredential, ShortAddressHash, UnusedMemo,
};
use rand::{rngs::StdRng, RngCore, SeedableRng};

fn private_from_rng(rng: &mut StdRng) -> RistrettoPrivate {
    let mut b = [0u8; 32];
    rng.fill_bytes(&mut b);
    RistrettoPrivate::from_bytes(b.to_vec()).unwrap()
}

fn public_from_rng(rng: &mut StdRng) -> RistrettoPublic {
    let mut b = [0u8; 32];
    rng.fill_bytes(&mut b);
    RistrettoPublic::from_bytes(b.to_vec()).unwrap()
}

fn account_from_rng(rng: &mut StdRng) -> AccountKey {
    let view = private_from_rng(rng);
    let spend = private_from_rng(rng);
    AccountKey::new(&view, &spend)
}

#[test]
fn test_memo_type_round_trips() {
    let mut rng: StdRng = SeedableRng::from_seed([1u8; 32]);

    let alice = account_from_rng(&mut rng);
    let alice_cred = SenderMemoCredential::from_account(&alice);

    let bob = account_from_rng(&mut rng);
    let bob_addr = bob.default_subaddress();

    let tx_public_key = public_from_rng(&mut rng);

    let memo1 = UnusedMemo;
    match MemoType::classify(&encode(&memo1)).unwrap() {
        MemoType::Unused(_) => {}
        _ => {
            panic!("unexpected deserialization");
        }
    }

    let memo2 =
        AuthenticatedSenderMemo::new(&alice_cred, bob_addr.view_public_key(), &tx_public_key);
    match MemoType::classify(&encode(&memo2)).unwrap() {
        MemoType::AuthenticatedSender(memo) => {
            assert_eq!(memo2, memo, "memo did not round trip");
        }
        _ => {
            panic!("unexpected deserialization");
        }
    }

    let memo3 = AuthenticatedSenderWithPaymentRequestIdMemo::new(
        &alice_cred,
        bob_addr.view_public_key(),
        &tx_public_key,
        7u64,
    );
    match MemoType::classify(&encode(&memo3)).unwrap() {
        MemoType::AuthenticatedSenderWithPaymentRequestId(memo) => {
            assert_eq!(memo3, memo);
        }
        _ => {
            panic!("unexpected deserialization");
        }
    }

    let memo4 = DestinationMemo::new(ShortAddressHash::of_address(&bob_addr), 17, 18).unwrap();
    match MemoType::classify(&encode(&memo4)).unwrap() {
        MemoType::Destination(memo) => {
            assert_eq!(memo4, memo);
        }
        _ => {
            panic!("unexpected deserialization");
        }
    }

    let memo5 = MemoPayload::new(vec![7u8, 8u8], vec![0u8; 64]);
    match MemoType::classify(&memo5) {
        Ok(_) => {
            panic!("failure was expected");
        }
        Err(err) => match err {
            MemoDecodingError::UnknownMemoType(code) => {
                assert_eq!(code, vec![7u8, 8u8], "unexpected memo type bytes");
            }
        },
    }

    let memo6 = BurnRedemptionMemo::new(vec![2u8; 64]);
    match MemoType::classify(&encode(&memo6)).unwrap() {
        MemoType::BurnRedemption(memo) => {
            assert_eq!(memo6, memo);
        }
        _ => {
            panic!("unexpected deserialization");
        }
    }
}

#[test]
fn test_memo_authentication() {
    let mut rng: StdRng = SeedableRng::from_seed([2u8; 32]);

    let alice = account_from_rng(&mut rng);
    let alice_cred = SenderMemoCredential::from_account(&alice);
    let alice_addr = alice.default_subaddress();

    let bob = account_from_rng(&mut rng);
    let bob_addr = bob.default_subaddress();

    let tx_public_key = public_from_rng(&mut rng);
    let tx_public_key2 = public_from_rng(&mut rng);

    let memo1 =
        AuthenticatedSenderMemo::new(&alice_cred, bob_addr.view_public_key(), &tx_public_key);
    assert_eq!(
        memo1.sender_address_hash(),
        ShortAddressHash::of_address(&alice_addr)
    );
    assert!(
        memo1.validate(
            &alice_addr,
            &bob.default_subaddress_view_private(),
            &tx_public_key
        ),
        "validation should have passed"
    );
    assert!(
        !memo1.validate(
            &bob_addr,
            &bob.default_subaddress_view_private(),
            &tx_public_key
        ),
        "validation should have failed"
    );
    assert!(
        !memo1.validate(
            &alice_addr,
            &alice.default_subaddress_view_private(),
            &tx_public_key
        ),
        "validation should have failed"
    );
    assert!(
        !memo1.validate(
            &bob_addr,
            &alice.default_subaddress_view_private(),
            &tx_public_key
        ),
        "validation should have failed"
    );
    assert!(
        !memo1.validate(
            &alice_addr,
            &bob.default_subaddress_view_private(),
            &tx_public_key2
        ),
        "validation should have failed"
    );
    assert!(
        !memo1.validate(
            &bob_addr,
            &bob.default_subaddress_view_private(),
            &tx_public_key2
        ),
        "validation should have failed"
    );
    assert!(
        !memo1.validate(
            &alice_addr,
            &alice.default_subaddress_view_private(),
            &tx_public_key2
        ),
        "validation should have failed"
    );
    assert!(
        !memo1.validate(
            &bob_addr,
            &alice.default_subaddress_view_private(),
            &tx_public_key2
        ),
        "validation should have failed"
    );

    let memo2 = AuthenticatedSenderWithPaymentRequestIdMemo::new(
        &alice_cred,
        bob_addr.view_public_key(),
        &tx_public_key,
        7u64,
    );
    assert_eq!(
        memo2.sender_address_hash(),
        ShortAddressHash::of_address(&alice_addr)
    );
    assert_eq!(memo2.payment_request_id(), 7u64);
    assert!(
        memo2.validate(
            &alice_addr,
            &bob.default_subaddress_view_private(),
            &tx_public_key
        ),
        "validation should have passed"
    );
    assert!(
        !memo2.validate(
            &bob_addr,
            &bob.default_subaddress_view_private(),
            &tx_public_key
        ),
        "validation should have failed"
    );
    assert!(
        !memo2.validate(
            &alice_addr,
            &alice.default_subaddress_view_private(),
            &tx_public_key
        ),
        "validation should have failed"
    );
    assert!(
        !memo2.validate(
            &bob_addr,
            &alice.default_subaddress_view_private(),
            &tx_public_key
        ),
        "validation should have failed"
    );
    assert!(
        !memo2.validate(
            &alice_addr,
            &bob.default_subaddress_view_private(),
            &tx_public_key2
        ),
        "validation should have failed"
    );
    assert!(
        !memo2.validate(
            &bob_addr,
            &bob.default_subaddress_view_private(),
            &tx_public_key2
        ),
        "validation should have failed"
    );
    assert!(
        !memo2.validate(
            &alice_addr,
            &alice.default_subaddress_view_private(),
            &tx_public_key2
        ),
        "validation should have failed"
    );
    assert!(
        !memo2.validate(
            &bob_addr,
            &alice.default_subaddress_view_private(),
            &tx_public_key2
        ),
        "validation should have failed"
    );
}

#[test]
fn test_destination_memo() {
    let mut rng: StdRng = SeedableRng::from_seed([2u8; 32]);

    let alice = account_from_rng(&mut rng);
    let alice_addr = alice.default_subaddress();

    let bob = account_from_rng(&mut rng);
    let bob_addr = bob.default_subaddress();

    let mut memo =
        DestinationMemo::new(ShortAddressHash::of_address(&alice_addr), 12u64, 13u64).unwrap();

    assert_eq!(
        memo.get_address_hash(),
        &ShortAddressHash::of_address(&alice_addr)
    );
    assert_eq!(memo.get_total_outlay(), 12u64);
    assert_eq!(memo.get_fee(), 13u64);
    assert_eq!(memo.get_num_recipients(), 1);

    memo.set_address_hash(ShortAddressHash::of_address(&bob_addr));
    memo.set_total_outlay(19);
    memo.set_fee(17).unwrap();
    memo.set_num_recipients(4);

    assert_eq!(
        memo.get_address_hash(),
        &ShortAddressHash::of_address(&bob_addr)
    );
    assert_eq!(memo.get_total_outlay(), 19u64);
    assert_eq!(memo.get_fee(), 17u64);
    assert_eq!(memo.get_num_recipients(), 4);
}
