//! A memo framework for confidential-transaction outputs: a fixed-size,
//! type-tagged 66-byte payload (2-byte type code plus 64-byte body) that is
//! classified into a closed registry of memo variants, together with the
//! keyed-hash authentication scheme used by the authenticated-sender family
//! and the confidential field encoding used by the destination family.
//!
//! The registered variants and their type codes:
//!
//! | Type code | Variant                                           |
//! | --------- | ------------------------------------------------- |
//! | 0x0000    | Unused                                            |
//! | 0x0001    | Burn Redemption                                   |
//! | 0x0002    | Gift Code Sender                                  |
//! | 0x0003    | Defragmentation                                   |
//! | 0x0100    | Authenticated Sender                              |
//! | 0x0101    | Authenticated Sender With Payment Request Id      |
//! | 0x0102    | Authenticated Sender With Payment Intent Id       |
//! | 0x0200    | Destination                                       |
//! | 0x0201    | Gift Code Funding                                 |
//! | 0x0202    | Gift Code Cancellation                            |
//! | 0x0203    | Destination With Payment Request Id               |
//! | 0x0204    | Destination With Payment Intent Id                |

pub mod authenticated_common;
pub mod authenticated_sender;
pub mod authenticated_sender_with_payment_intent_id;
pub mod authenticated_sender_with_payment_request_id;
pub mod burn_redemption;
pub mod bytes;
pub mod crypto;
pub mod defragmentation;
pub mod destination;
pub mod destination_with_payment_intent_id;
pub mod destination_with_payment_request_id;
pub mod gift_code_cancellation;
pub mod gift_code_funding;
pub mod gift_code_sender;
pub mod keys;
pub mod payload;
pub mod registry;
pub mod unused;

pub use crate::authenticated_common::compute_authenticated_sender_memo;
pub use crate::authenticated_sender::AuthenticatedSenderMemo;
pub use crate::authenticated_sender_with_payment_intent_id::AuthenticatedSenderWithPaymentIntentIdMemo;
pub use crate::authenticated_sender_with_payment_request_id::AuthenticatedSenderWithPaymentRequestIdMemo;
pub use crate::burn_redemption::BurnRedemptionMemo;
pub use crate::defragmentation::{DefragmentationMemo, DefragmentationMemoError};
pub use crate::destination::{compute_destination_memo, DestinationMemo, DestinationMemoError};
pub use crate::destination_with_payment_intent_id::DestinationWithPaymentIntentIdMemo;
pub use crate::destination_with_payment_request_id::DestinationWithPaymentRequestIdMemo;
pub use crate::gift_code_cancellation::GiftCodeCancellationMemo;
pub use crate::gift_code_funding::GiftCodeFundingMemo;
pub use crate::gift_code_sender::GiftCodeSenderMemo;
pub use crate::keys::{
    AccountKey, PublicAddress, RistrettoPrivate, RistrettoPublic, SenderMemoCredential,
    ShortAddressHash,
};
pub use crate::payload::MemoPayload;
pub use crate::registry::{encode, MemoDecodingError, MemoType, RegisteredMemoType};
pub use crate::unused::UnusedMemo;
