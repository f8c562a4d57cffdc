//! Field semantics of the simpler variants, the error taxonomy, the exact
//! byte layout of the destination body, and distinctness under bulk
//! encoding.

use memo_types::{
    compute_destination_memo, encode, AccountKey, DefragmentationMemo, DefragmentationMemoError,
    DestinationMemo, DestinationMemoError, DestinationWithPaymentIntentIdMemo,
    DestinationWithPaymentRequestIdMemo, GiftCodeCancellationMemo, GiftCodeFundingMemo,
    GiftCodeSenderMemo, MemoDecodingError, MemoPayload, MemoType, RistrettoPrivate,
    ShortAddressHash,
};

const FIELD_MAX: u64 = 0x100_0000_0000_0000 - 1;

fn test_hash(fill: u8) -> ShortAddressHash {
    ShortAddressHash::from_bytes(vec![fill; 16]).unwrap()
}

fn test_address(seed: u8) -> memo_types::PublicAddress {
    let view = RistrettoPrivate::from_bytes(vec![seed; 32]).unwrap();
    let spend = RistrettoPrivate::from_bytes(vec![seed.wrapping_add(1); 32]).unwrap();
    AccountKey::new(&view, &spend).default_subaddress()
}

#[test]
fn test_gift_code_memos_round_trip() {
    let hash = test_hash(3);
    let sender = GiftCodeSenderMemo::new(hash.duplicate(), 1000);
    assert_eq!(sender.get_address_hash(), &hash);
    assert_eq!(sender.get_amount(), 1000);
    match MemoType::classify(&encode(&sender)).unwrap() {
        MemoType::GiftCodeSender(m) => assert_eq!(m, sender),
        _ => panic!("unexpected deserialization"),
    }

    let funding = GiftCodeFundingMemo::new(hash.duplicate(), 2000);
    assert_eq!(funding.get_amount(), 2000);
    match MemoType::classify(&encode(&funding)).unwrap() {
        MemoType::GiftCodeFunding(m) => assert_eq!(m, funding),
        _ => panic!("unexpected deserialization"),
    }

    let cancellation = GiftCodeCancellationMemo::new(hash.duplicate(), 3000);
    assert_eq!(cancellation.get_amount(), 3000);
    match MemoType::classify(&encode(&cancellation)).unwrap() {
        MemoType::GiftCodeCancellation(m) => assert_eq!(m, cancellation),
        _ => panic!("unexpected deserialization"),
    }
}

#[test]
fn test_defragmentation_memo() {
    let hash = test_hash(5);
    let memo = DefragmentationMemo::new(hash.duplicate(), 4000, 25).unwrap();
    assert_eq!(memo.get_address_hash(), &hash);
    assert_eq!(memo.get_total_outlay(), 4000);
    assert_eq!(memo.get_fee(), 25);
    match MemoType::classify(&encode(&memo)).unwrap() {
        MemoType::Defragmentation(m) => assert_eq!(m, memo),
        _ => panic!("unexpected deserialization"),
    }

    assert_eq!(
        DefragmentationMemo::new(test_hash(5), 1, FIELD_MAX + 1).unwrap_err(),
        DefragmentationMemoError::FeeTooLarge
    );
    assert_eq!(
        DefragmentationMemo::new(test_hash(5), FIELD_MAX + 1, 1).unwrap_err(),
        DefragmentationMemoError::TotalOutlayTooLarge
    );
    assert!(DefragmentationMemo::new(test_hash(5), FIELD_MAX, FIELD_MAX).is_ok());
}

#[test]
fn test_destination_memo_errors() {
    let hash = test_hash(7);
    assert_eq!(
        DestinationMemo::new(hash.duplicate(), 1, FIELD_MAX + 1).unwrap_err(),
        DestinationMemoError::FeeTooLarge
    );
    assert_eq!(
        DestinationMemo::new(hash.duplicate(), FIELD_MAX + 1, 1).unwrap_err(),
        DestinationMemoError::TotalOutlayTooLarge
    );
    // The fee bound is checked first.
    assert_eq!(
        DestinationMemo::new(hash.duplicate(), FIELD_MAX + 1, FIELD_MAX + 1).unwrap_err(),
        DestinationMemoError::FeeTooLarge
    );
    assert!(DestinationMemo::new(hash.duplicate(), FIELD_MAX, FIELD_MAX).is_ok());

    let mut memo = DestinationMemo::new(hash.duplicate(), 10, 20).unwrap();
    assert_eq!(
        memo.set_fee(FIELD_MAX + 1).unwrap_err(),
        DestinationMemoError::FeeTooLarge
    );
    // A rejected mutation changes nothing.
    assert_eq!(memo.get_fee(), 20);
    assert_eq!(memo.get_total_outlay(), 10);
    assert_eq!(memo.get_num_recipients(), 1);
    memo.set_fee(FIELD_MAX).unwrap();
    assert_eq!(memo.get_fee(), FIELD_MAX);
}

#[test]
fn test_destination_with_payment_request_id_memo() {
    let hash = test_hash(9);
    let mut memo =
        DestinationWithPaymentRequestIdMemo::new(hash.duplicate(), 100, 3, 777).unwrap();
    assert_eq!(memo.get_address_hash(), &hash);
    assert_eq!(memo.get_total_outlay(), 100);
    assert_eq!(memo.get_fee(), 3);
    assert_eq!(memo.get_num_recipients(), 1);
    assert_eq!(memo.get_payment_request_id(), 777);
    memo.set_num_recipients(2);
    assert_eq!(memo.get_num_recipients(), 2);
    assert_eq!(memo.get_payment_request_id(), 777);
    match MemoType::classify(&encode(&memo)).unwrap() {
        MemoType::DestinationWithPaymentRequestId(m) => assert_eq!(m, memo),
        _ => panic!("unexpected deserialization"),
    }
    assert_eq!(
        DestinationWithPaymentRequestIdMemo::new(hash.duplicate(), 1, FIELD_MAX + 1, 0)
            .unwrap_err(),
        DestinationMemoError::FeeTooLarge
    );
}

#[test]
fn test_destination_with_payment_intent_id_memo() {
    let hash = test_hash(11);
    let memo = DestinationWithPaymentIntentIdMemo::new(hash.duplicate(), 200, 4, 888).unwrap();
    assert_eq!(memo.get_payment_intent_id(), 888);
    match MemoType::classify(&encode(&memo)).unwrap() {
        MemoType::DestinationWithPaymentIntentId(m) => assert_eq!(m, memo),
        _ => panic!("unexpected deserialization"),
    }
}

#[test]
fn test_destination_body_layout() {
    let hash = test_hash(0xAB);
    let body = compute_destination_memo(&hash, 5, 0x01020304050607, 0x0A0B0C0D0E0F10);
    assert_eq!(body.len(), 64);
    assert_eq!(&body[0..16], &[0xABu8; 16]);
    assert_eq!(body[16], 5);
    assert_eq!(&body[17..24], &[1u8, 2, 3, 4, 5, 6, 7]);
    assert_eq!(&body[24..31], &[10u8, 11, 12, 13, 14, 15, 16]);
    assert_eq!(&body[31..64], &[0u8; 33]);

    // The encoded payload of a destination memo is its type code over the
    // same body.
    let mut memo = DestinationMemo::new(test_hash(0xAB), 0x01020304050607, 0x0A0B0C0D0E0F10)
        .unwrap();
    memo.set_num_recipients(5);
    let payload = encode(&memo);
    assert_eq!(payload.get_memo_type(), &vec![2u8, 0u8]);
    assert_eq!(payload.get_memo_data(), &body);
}

#[test]
fn test_unknown_type_codes() {
    for code in [[3u8, 0u8], [0u8, 4u8], [255u8, 255u8]] {
        let payload = MemoPayload::new(code.to_vec(), vec![0u8; 64]);
        match MemoType::classify(&payload) {
            Err(MemoDecodingError::UnknownMemoType(c)) => assert_eq!(c, code.to_vec()),
            Ok(_) => panic!("failure was expected"),
        }
    }
}

#[test]
fn test_bulk_destination_memos_distinct() {
    let hash = test_hash(1);
    let mut decoded: Vec<DestinationMemo> = Vec::new();
    for i in 0..50u64 {
        let memo = DestinationMemo::new(hash.duplicate(), 100 + i, 13).unwrap();
        match MemoType::classify(&encode(&memo)).unwrap() {
            MemoType::Destination(m) => decoded.push(m),
            _ => panic!("unexpected deserialization"),
        }
    }
    for i in 0..decoded.len() {
        for j in 0..i {
            assert_ne!(decoded[i], decoded[j], "bulk decoding aliased two memos");
        }
    }
}

#[test]
fn test_key_material_length_checks() {
    assert!(RistrettoPrivate::from_bytes(vec![1u8; 31]).is_none());
    assert!(RistrettoPrivate::from_bytes(vec![1u8; 32]).is_some());
    assert!(memo_types::RistrettoPublic::from_bytes(vec![1u8; 33]).is_none());
    assert!(ShortAddressHash::from_bytes(vec![1u8; 15]).is_none());
    assert!(ShortAddressHash::from_bytes(vec![1u8; 16]).is_some());
}

#[test]
fn test_short_hashes_differ_between_addresses() {
    let a = test_address(1);
    let b = test_address(40);
    assert_ne!(
        ShortAddressHash::of_address(&a),
        ShortAddressHash::of_address(&b)
    );
    assert_eq!(
        ShortAddressHash::of_address(&a),
        ShortAddressHash::of_address(&a)
    );
}
