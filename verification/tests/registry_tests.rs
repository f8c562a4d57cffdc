//! The registry table itself: every registered code is distinct, and the
//! trivial variant encodes to the exact bytes the table prescribes.

use memo_types::{
    compute_authenticated_sender_memo, encode, AuthenticatedSenderMemo,
    AuthenticatedSenderWithPaymentIntentIdMemo, AuthenticatedSenderWithPaymentRequestIdMemo,
    BurnRedemptionMemo, DefragmentationMemo, DestinationMemo, DestinationWithPaymentIntentIdMemo,
    DestinationWithPaymentRequestIdMemo, GiftCodeCancellationMemo, GiftCodeFundingMemo,
    GiftCodeSenderMemo, RegisteredMemoType, UnusedMemo,
};

#[test]
fn test_type_codes_unique() {
    let codes: Vec<Vec<u8>> = vec![
        <UnusedMemo as RegisteredMemoType>::memo_type_bytes(),
        <BurnRedemptionMemo as RegisteredMemoType>::memo_type_bytes(),
        <GiftCodeSenderMemo as RegisteredMemoType>::memo_type_bytes(),
        <DefragmentationMemo as RegisteredMemoType>::memo_type_bytes(),
        <AuthenticatedSenderMemo as RegisteredMemoType>::memo_type_bytes(),
        <AuthenticatedSenderWithPaymentRequestIdMemo as RegisteredMemoType>::memo_type_bytes(),
        <AuthenticatedSenderWithPaymentIntentIdMemo as RegisteredMemoType>::memo_type_bytes(),
        <DestinationMemo as RegisteredMemoType>::memo_type_bytes(),
        <GiftCodeFundingMemo as RegisteredMemoType>::memo_type_bytes(),
        <GiftCodeCancellationMemo as RegisteredMemoType>::memo_type_bytes(),
        <DestinationWithPaymentRequestIdMemo as RegisteredMemoType>::memo_type_bytes(),
        <DestinationWithPaymentIntentIdMemo as RegisteredMemoType>::memo_type_bytes(),
    ];
    let expected: Vec<Vec<u8>> = vec![
        vec![0, 0],
        vec![0, 1],
        vec![0, 2],
        vec![0, 3],
        vec![1, 0],
        vec![1, 1],
        vec![1, 2],
        vec![2, 0],
        vec![2, 1],
        vec![2, 2],
        vec![2, 3],
        vec![2, 4],
    ];
    assert_eq!(codes, expected);
    for i in 0..codes.len() {
        for j in 0..i {
            assert_ne!(codes[i], codes[j], "two variants share a type code");
        }
    }
}

#[test]
fn test_unused_memo_encodes_to_zero_body() {
    let payload = encode(&UnusedMemo);
    assert_eq!(payload.get_memo_type(), &vec![0u8, 0u8]);
    assert_eq!(payload.get_memo_data(), &vec![0u8; 64]);
}

#[test]
fn test_sender_tag_depends_on_every_input() {
    let memo_type = vec![1u8, 0u8];
    let secret = vec![5u8; 32];
    let other_secret = vec![6u8; 32];
    let tx_key = vec![7u8; 32];
    let hash = vec![8u8; 16];
    let data: Vec<u8> = Vec::new();

    let tag = compute_authenticated_sender_memo(&memo_type, &secret, &tx_key, &hash, &data, 48);
    assert_eq!(tag.len(), 48);
    // Deterministic in its inputs.
    assert_eq!(
        tag,
        compute_authenticated_sender_memo(&memo_type, &secret, &tx_key, &hash, &data, 48)
    );
    // And sensitive to each of them.
    assert_ne!(
        tag,
        compute_authenticated_sender_memo(&memo_type, &other_secret, &tx_key, &hash, &data, 48)
    );
    assert_ne!(
        tag,
        compute_authenticated_sender_memo(&vec![1u8, 1u8], &secret, &tx_key, &hash, &data, 48)
    );
    assert_ne!(
        tag,
        compute_authenticated_sender_memo(&memo_type, &secret, &vec![9u8; 32], &hash, &data, 48)
    );
    assert_ne!(
        tag,
        compute_authenticated_sender_memo(&memo_type, &secret, &tx_key, &vec![9u8; 16], &data, 48)
    );
}
