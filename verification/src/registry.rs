//! The memo type registry: the capability every registered variant
//! implements, the tagged union over the closed set of variants, and the
//! dispatcher that classifies a raw payload.

use vstd::prelude::*;

use crate::authenticated_sender::AuthenticatedSenderMemo;
use crate::authenticated_sender_with_payment_intent_id::AuthenticatedSenderWithPaymentIntentIdMemo;
use crate::authenticated_sender_with_payment_request_id::AuthenticatedSenderWithPaymentRequestIdMemo;
use crate::burn_redemption::BurnRedemptionMemo;
use crate::bytes::{be_val, clone_bytes};
use crate::defragmentation::DefragmentationMemo;
use crate::destination::DestinationMemo;
use crate::destination_with_payment_intent_id::DestinationWithPaymentIntentIdMemo;
use crate::destination_with_payment_request_id::DestinationWithPaymentRequestIdMemo;
use crate::gift_code_cancellation::GiftCodeCancellationMemo;
use crate::gift_code_funding::GiftCodeFundingMemo;
use crate::gift_code_sender::GiftCodeSenderMemo;
use crate::payload::MemoPayload;
use crate::unused::UnusedMemo;

verus! {

/// The contract of every registered memo variant: a two-byte type code fixed
/// per variant, and lossless conversion to and from the 64-byte body. No two
/// registered variants share a type code.
pub trait RegisteredMemoType: Sized {
    /// The two type code bytes assigned to this variant: the first byte is a
    /// type category, the second a type within the category.
    spec fn spec_type_code() -> Seq<u8>;

    /// Validity of a value of this variant; constructors establish it and
    /// `from_body` re-establishes it.
    spec fn spec_wf(&self) -> bool;

    /// The 64-byte body this value encodes to.
    spec fn spec_body(&self) -> Seq<u8>;

    /// The type code bytes, as a value.
    fn memo_type_bytes() -> (r: Vec<u8>)
        ensures
            r@ == Self::spec_type_code(),
            r@.len() == 2,
    ;

    /// Encodes this value into its 64-byte body; total on valid values.
    fn to_body(&self) -> (r: Vec<u8>)
        requires
            self.spec_wf(),
        ensures
            r@ == self.spec_body(),
            r@.len() == 64,
    ;

    /// Reads a value of this variant out of a 64-byte body; each
    /// implementation states exactly which fields it recovers.
    fn from_body(body: &Vec<u8>) -> (r: Self)
        requires
            body@.len() == 64,
    ;
}

/// Wraps a registered memo variant as a full payload: its type code bytes
/// followed by its encoded body.
pub fn encode<T: RegisteredMemoType>(memo: &T) -> (r: MemoPayload)
    requires
        memo.spec_wf(),
    ensures
        r.spec_type_code() == T::spec_type_code(),
        r.spec_body() == memo.spec_body(),
        r.wf(),
{
    MemoPayload::new(T::memo_type_bytes(), memo.to_body())
}

/// The decoding failure of the dispatcher, carrying the raw unrecognized
/// type code bytes.
#[derive(Debug, PartialEq, Eq)]
pub enum MemoDecodingError {
    /// The payload's type code matches no registered variant.
    UnknownMemoType(Vec<u8>),
}

/// The decoded memo: the tagged union over all registered variants, exactly
/// one tag active at a time.
#[derive(Debug, PartialEq, Eq)]
pub enum MemoType {
    AuthenticatedSender(AuthenticatedSenderMemo),
    AuthenticatedSenderWithPaymentRequestId(AuthenticatedSenderWithPaymentRequestIdMemo),
    AuthenticatedSenderWithPaymentIntentId(AuthenticatedSenderWithPaymentIntentIdMemo),
    BurnRedemption(BurnRedemptionMemo),
    Defragmentation(DefragmentationMemo),
    Destination(DestinationMemo),
    DestinationWithPaymentRequestId(DestinationWithPaymentRequestIdMemo),
    DestinationWithPaymentIntentId(DestinationWithPaymentIntentIdMemo),
    GiftCodeCancellation(GiftCodeCancellationMemo),
    GiftCodeFunding(GiftCodeFundingMemo),
    GiftCodeSender(GiftCodeSenderMemo),
    Unused(UnusedMemo),
}

/// What `classify` returns for a payload: the variant whose registered type
/// code matches the payload's, read from the body, or the unknown-type error
/// carrying the raw code when none matches.
pub open spec fn classify_rel(p: MemoPayload, r: Result<MemoType, MemoDecodingError>) -> bool {
    let code = p.spec_type_code();
    let body = p.spec_body();
    if code == AuthenticatedSenderMemo::spec_type_code() {
        r matches Ok(MemoType::AuthenticatedSender(v))
            && v.spec_address_hash() == body.subrange(0, 16)
            && v.spec_tag() == body.subrange(16, 64)
            && v.spec_wf()
    } else if code == AuthenticatedSenderWithPaymentRequestIdMemo::spec_type_code() {
        r matches Ok(MemoType::AuthenticatedSenderWithPaymentRequestId(v))
            && v.spec_address_hash() == body.subrange(0, 16)
            && v.spec_payment_request_id() as int == be_val(body.subrange(16, 24))
            && v.spec_tag() == body.subrange(24, 64)
            && v.spec_wf()
    } else if code == AuthenticatedSenderWithPaymentIntentIdMemo::spec_type_code() {
        r matches Ok(MemoType::AuthenticatedSenderWithPaymentIntentId(v))
            && v.spec_address_hash() == body.subrange(0, 16)
            && v.spec_payment_intent_id() as int == be_val(body.subrange(16, 24))
            && v.spec_tag() == body.subrange(24, 64)
            && v.spec_wf()
    } else if code == BurnRedemptionMemo::spec_type_code() {
        r matches Ok(MemoType::BurnRedemption(v))
            && v@ == body
            && v.spec_wf()
    } else if code == DefragmentationMemo::spec_type_code() {
        r matches Ok(MemoType::Defragmentation(v))
            && v.spec_address_hash() == body.subrange(0, 16)
            && v.spec_total_outlay() as int == be_val(body.subrange(16, 23))
            && v.spec_fee() as int == be_val(body.subrange(23, 30))
            && v.spec_wf()
    } else if code == DestinationMemo::spec_type_code() {
        r matches Ok(MemoType::Destination(v))
            && v.spec_address_hash() == body.subrange(0, 16)
            && v.spec_num_recipients() == body[16]
            && v.spec_total_outlay() as int == be_val(body.subrange(17, 24))
            && v.spec_fee() as int == be_val(body.subrange(24, 31))
            && v.spec_wf()
    } else if code == DestinationWithPaymentRequestIdMemo::spec_type_code() {
        r matches Ok(MemoType::DestinationWithPaymentRequestId(v))
            && v.spec_address_hash() == body.subrange(0, 16)
            && v.spec_num_recipients() == body[16]
            && v.spec_total_outlay() as int == be_val(body.subrange(17, 24))
            && v.spec_fee() as int == be_val(body.subrange(24, 31))
            && v.spec_payment_request_id() as int == be_val(body.subrange(31, 39))
            && v.spec_wf()
    } else if code == DestinationWithPaymentIntentIdMemo::spec_type_code() {
        r matches Ok(MemoType::DestinationWithPaymentIntentId(v))
            && v.spec_address_hash() == body.subrange(0, 16)
            && v.spec_num_recipients() == body[16]
            && v.spec_total_outlay() as int == be_val(body.subrange(17, 24))
            && v.spec_fee() as int == be_val(body.subrange(24, 31))
            && v.spec_payment_intent_id() as int == be_val(body.subrange(31, 39))
            && v.spec_wf()
    } else if code == GiftCodeCancellationMemo::spec_type_code() {
        r matches Ok(MemoType::GiftCodeCancellation(v))
            && v.spec_address_hash() == body.subrange(0, 16)
            && v.spec_amount() as int == be_val(body.subrange(16, 24))
            && v.spec_wf()
    } else if code == GiftCodeFundingMemo::spec_type_code() {
        r matches Ok(MemoType::GiftCodeFunding(v))
            && v.spec_address_hash() == body.subrange(0, 16)
            && v.spec_amount() as int == be_val(body.subrange(16, 24))
            && v.spec_wf()
    } else if code == GiftCodeSenderMemo::spec_type_code() {
        r matches Ok(MemoType::GiftCodeSender(v))
            && v.spec_address_hash() == body.subrange(0, 16)
            && v.spec_amount() as int == be_val(body.subrange(16, 24))
            && v.spec_wf()
    } else if code == UnusedMemo::spec_type_code() {
        r matches Ok(MemoType::Unused(v))
            && v.spec_wf()
    } else {
        r matches Err(MemoDecodingError::UnknownMemoType(c)) && c@ == code
    }
}

/// The registered type code of a decoded memo's variant.
pub open spec fn memo_type_code(m: MemoType) -> Seq<u8> {
    match m {
        MemoType::AuthenticatedSender(_) => AuthenticatedSenderMemo::spec_type_code(),
        MemoType::AuthenticatedSenderWithPaymentRequestId(_) => AuthenticatedSenderWithPaymentRequestIdMemo::spec_type_code(),
        MemoType::AuthenticatedSenderWithPaymentIntentId(_) => AuthenticatedSenderWithPaymentIntentIdMemo::spec_type_code(),
        MemoType::BurnRedemption(_) => BurnRedemptionMemo::spec_type_code(),
        MemoType::Defragmentation(_) => DefragmentationMemo::spec_type_code(),
        MemoType::Destination(_) => DestinationMemo::spec_type_code(),
        MemoType::DestinationWithPaymentRequestId(_) => DestinationWithPaymentRequestIdMemo::spec_type_code(),
        MemoType::DestinationWithPaymentIntentId(_) => DestinationWithPaymentIntentIdMemo::spec_type_code(),
        MemoType::GiftCodeCancellation(_) => GiftCodeCancellationMemo::spec_type_code(),
        MemoType::GiftCodeFunding(_) => GiftCodeFundingMemo::spec_type_code(),
        MemoType::GiftCodeSender(_) => GiftCodeSenderMemo::spec_type_code(),
        MemoType::Unused(_) => UnusedMemo::spec_type_code(),
    }
}

/// Validity of the variant a decoded memo carries.
pub open spec fn memo_type_wf(m: MemoType) -> bool {
    match m {
        MemoType::AuthenticatedSender(v) => v.spec_wf(),
        MemoType::AuthenticatedSenderWithPaymentRequestId(v) => v.spec_wf(),
        MemoType::AuthenticatedSenderWithPaymentIntentId(v) => v.spec_wf(),
        MemoType::BurnRedemption(v) => v.spec_wf(),
        MemoType::Defragmentation(v) => v.spec_wf(),
        MemoType::Destination(v) => v.spec_wf(),
        MemoType::DestinationWithPaymentRequestId(v) => v.spec_wf(),
        MemoType::DestinationWithPaymentIntentId(v) => v.spec_wf(),
        MemoType::GiftCodeCancellation(v) => v.spec_wf(),
        MemoType::GiftCodeFunding(v) => v.spec_wf(),
        MemoType::GiftCodeSender(v) => v.spec_wf(),
        MemoType::Unused(v) => v.spec_wf(),
    }
}

/// The 64-byte body the carried variant encodes to.
pub open spec fn memo_type_body(m: MemoType) -> Seq<u8> {
    match m {
        MemoType::AuthenticatedSender(v) => v.spec_body(),
        MemoType::AuthenticatedSenderWithPaymentRequestId(v) => v.spec_body(),
        MemoType::AuthenticatedSenderWithPaymentIntentId(v) => v.spec_body(),
        MemoType::BurnRedemption(v) => v.spec_body(),
        MemoType::Defragmentation(v) => v.spec_body(),
        MemoType::Destination(v) => v.spec_body(),
        MemoType::DestinationWithPaymentRequestId(v) => v.spec_body(),
        MemoType::DestinationWithPaymentIntentId(v) => v.spec_body(),
        MemoType::GiftCodeCancellation(v) => v.spec_body(),
        MemoType::GiftCodeFunding(v) => v.spec_body(),
        MemoType::GiftCodeSender(v) => v.spec_body(),
        MemoType::Unused(v) => v.spec_body(),
    }
}

/// Whether two decoded memos carry the same tag with the same field values.
pub open spec fn memo_type_matches(m1: MemoType, m2: MemoType) -> bool {
    match (m1, m2) {
        (MemoType::AuthenticatedSender(a), MemoType::AuthenticatedSender(b)) => a.spec_address_hash() == b.spec_address_hash() && a.spec_tag() == b.spec_tag(),
        (MemoType::AuthenticatedSenderWithPaymentRequestId(a), MemoType::AuthenticatedSenderWithPaymentRequestId(b)) => a.spec_address_hash() == b.spec_address_hash() && a.spec_payment_request_id() == b.spec_payment_request_id() && a.spec_tag() == b.spec_tag(),
        (MemoType::AuthenticatedSenderWithPaymentIntentId(a), MemoType::AuthenticatedSenderWithPaymentIntentId(b)) => a.spec_address_hash() == b.spec_address_hash() && a.spec_payment_intent_id() == b.spec_payment_intent_id() && a.spec_tag() == b.spec_tag(),
        (MemoType::BurnRedemption(a), MemoType::BurnRedemption(b)) => a@ == b@,
        (MemoType::Defragmentation(a), MemoType::Defragmentation(b)) => a.spec_address_hash() == b.spec_address_hash() && a.spec_total_outlay() == b.spec_total_outlay() && a.spec_fee() == b.spec_fee(),
        (MemoType::Destination(a), MemoType::Destination(b)) => a.spec_address_hash() == b.spec_address_hash() && a.spec_num_recipients() == b.spec_num_recipients() && a.spec_total_outlay() == b.spec_total_outlay() && a.spec_fee() == b.spec_fee(),
        (MemoType::DestinationWithPaymentRequestId(a), MemoType::DestinationWithPaymentRequestId(b)) => a.spec_address_hash() == b.spec_address_hash() && a.spec_num_recipients() == b.spec_num_recipients() && a.spec_total_outlay() == b.spec_total_outlay() && a.spec_fee() == b.spec_fee() && a.spec_payment_request_id() == b.spec_payment_request_id(),
        (MemoType::DestinationWithPaymentIntentId(a), MemoType::DestinationWithPaymentIntentId(b)) => a.spec_address_hash() == b.spec_address_hash() && a.spec_num_recipients() == b.spec_num_recipients() && a.spec_total_outlay() == b.spec_total_outlay() && a.spec_fee() == b.spec_fee() && a.spec_payment_intent_id() == b.spec_payment_intent_id(),
        (MemoType::GiftCodeCancellation(a), MemoType::GiftCodeCancellation(b)) => a.spec_address_hash() == b.spec_address_hash() && a.spec_amount() == b.spec_amount(),
        (MemoType::GiftCodeFunding(a), MemoType::GiftCodeFunding(b)) => a.spec_address_hash() == b.spec_address_hash() && a.spec_amount() == b.spec_amount(),
        (MemoType::GiftCodeSender(a), MemoType::GiftCodeSender(b)) => a.spec_address_hash() == b.spec_address_hash() && a.spec_amount() == b.spec_amount(),
        (MemoType::Unused(_), MemoType::Unused(_)) => true,
        _ => false,
    }
}

impl MemoType {
    /// Classifies a raw payload: the type code is looked up in the closed
    /// registry and the matching variant is read from the body; an
    /// unregistered code yields `UnknownMemoType` carrying that code. A pure
    /// function of type code and body.
    pub fn classify(payload: &MemoPayload) -> (r: Result<MemoType, MemoDecodingError>)
        requires
            payload.wf(),
        ensures
            classify_rel(*payload, r),
    {
        let code = payload.get_memo_type();
        let body = payload.get_memo_data();
        let c0: u8 = code[0];
        let c1: u8 = code[1];
        proof {
            assert(payload.spec_type_code() =~= seq![c0, c1]);
        }
        match (c0, c1) {
            (1u8, 0u8) => {
                proof {
                    assert(payload.spec_type_code() =~= AuthenticatedSenderMemo::spec_type_code());
                }
                Ok(MemoType::AuthenticatedSender(AuthenticatedSenderMemo::from_body(body)))
            },
            (1u8, 1u8) => {
                proof {
                    assert(payload.spec_type_code() =~= AuthenticatedSenderWithPaymentRequestIdMemo::spec_type_code());
                }
                Ok(MemoType::AuthenticatedSenderWithPaymentRequestId(AuthenticatedSenderWithPaymentRequestIdMemo::from_body(body)))
            },
            (1u8, 2u8) => {
                proof {
                    assert(payload.spec_type_code() =~= AuthenticatedSenderWithPaymentIntentIdMemo::spec_type_code());
                }
                Ok(MemoType::AuthenticatedSenderWithPaymentIntentId(AuthenticatedSenderWithPaymentIntentIdMemo::from_body(body)))
            },
            (0u8, 1u8) => {
                proof {
                    assert(payload.spec_type_code() =~= BurnRedemptionMemo::spec_type_code());
                }
                Ok(MemoType::BurnRedemption(BurnRedemptionMemo::from_body(body)))
            },
            (0u8, 3u8) => {
                proof {
                    assert(payload.spec_type_code() =~= DefragmentationMemo::spec_type_code());
                }
                Ok(MemoType::Defragmentation(DefragmentationMemo::from_body(body)))
            },
            (2u8, 0u8) => {
                proof {
                    assert(payload.spec_type_code() =~= DestinationMemo::spec_type_code());
                }
                Ok(MemoType::Destination(DestinationMemo::from_body(body)))
            },
            (2u8, 3u8) => {
                proof {
                    assert(payload.spec_type_code() =~= DestinationWithPaymentRequestIdMemo::spec_type_code());
                }
                Ok(MemoType::DestinationWithPaymentRequestId(DestinationWithPaymentRequestIdMemo::from_body(body)))
            },
            (2u8, 4u8) => {
                proof {
                    assert(payload.spec_type_code() =~= DestinationWithPaymentIntentIdMemo::spec_type_code());
                }
                Ok(MemoType::DestinationWithPaymentIntentId(DestinationWithPaymentIntentIdMemo::from_body(body)))
            },
            (2u8, 2u8) => {
                proof {
                    assert(payload.spec_type_code() =~= GiftCodeCancellationMemo::spec_type_code());
                }
                Ok(MemoType::GiftCodeCancellation(GiftCodeCancellationMemo::from_body(body)))
            },
            (2u8, 1u8) => {
                proof {
                    assert(payload.spec_type_code() =~= GiftCodeFundingMemo::spec_type_code());
                }
                Ok(MemoType::GiftCodeFunding(GiftCodeFundingMemo::from_body(body)))
            },
            (0u8, 2u8) => {
                proof {
                    assert(payload.spec_type_code() =~= GiftCodeSenderMemo::spec_type_code());
                }
                Ok(MemoType::GiftCodeSender(GiftCodeSenderMemo::from_body(body)))
            },
            (0u8, 0u8) => {
                proof {
                    assert(payload.spec_type_code() =~= UnusedMemo::spec_type_code());
                }
                Ok(MemoType::Unused(UnusedMemo::from_body(body)))
            },
            _ => Err(MemoDecodingError::UnknownMemoType(clone_bytes(code))),
        }
    }
}

/// Round trip: classifying the payload that encodes any valid registered
/// variant recovers the same tag with the same field values.
pub proof fn lemma_classify_round_trip(
    m: MemoType,
    p: MemoPayload,
    r: Result<MemoType, MemoDecodingError>,
)
    requires
        memo_type_wf(m),
        p.spec_type_code() == memo_type_code(m),
        p.spec_body() == memo_type_body(m),
        classify_rel(p, r),
    ensures
        r matches Ok(m2) && memo_type_matches(m, m2),
{
    match m {
        MemoType::AuthenticatedSender(a) => {
            match r {
                Ok(MemoType::AuthenticatedSender(b)) => {
                    crate::authenticated_sender::lemma_authenticated_sender_round_trip(a, b);
                },
                _ => {},
            }
        },
        MemoType::AuthenticatedSenderWithPaymentRequestId(a) => {
            match r {
                Ok(MemoType::AuthenticatedSenderWithPaymentRequestId(b)) => {
                    crate::authenticated_sender_with_payment_request_id::lemma_authenticated_sender_with_payment_request_id_round_trip(a, b);
                },
                _ => {},
            }
        },
        MemoType::AuthenticatedSenderWithPaymentIntentId(a) => {
            match r {
                Ok(MemoType::AuthenticatedSenderWithPaymentIntentId(b)) => {
                    crate::authenticated_sender_with_payment_intent_id::lemma_authenticated_sender_with_payment_intent_id_round_trip(a, b);
                },
                _ => {},
            }
        },
        MemoType::BurnRedemption(_) => {
        },
        MemoType::Defragmentation(a) => {
            match r {
                Ok(MemoType::Defragmentation(b)) => {
                    crate::defragmentation::lemma_defragmentation_round_trip(a, b);
                },
                _ => {},
            }
        },
        MemoType::Destination(a) => {
            match r {
                Ok(MemoType::Destination(b)) => {
                    crate::destination::lemma_destination_round_trip(a, b);
                },
                _ => {},
            }
        },
        MemoType::DestinationWithPaymentRequestId(a) => {
            match r {
                Ok(MemoType::DestinationWithPaymentRequestId(b)) => {
                    crate::destination_with_payment_request_id::lemma_destination_with_payment_request_id_round_trip(a, b);
                },
                _ => {},
            }
        },
        MemoType::DestinationWithPaymentIntentId(a) => {
            match r {
                Ok(MemoType::DestinationWithPaymentIntentId(b)) => {
                    crate::destination_with_payment_intent_id::lemma_destination_with_payment_intent_id_round_trip(a, b);
                },
                _ => {},
            }
        },
        MemoType::GiftCodeCancellation(a) => {
            match r {
                Ok(MemoType::GiftCodeCancellation(b)) => {
                    crate::gift_code_cancellation::lemma_gift_code_cancellation_round_trip(a, b);
                },
                _ => {},
            }
        },
        MemoType::GiftCodeFunding(a) => {
            match r {
                Ok(MemoType::GiftCodeFunding(b)) => {
                    crate::gift_code_funding::lemma_gift_code_funding_round_trip(a, b);
                },
                _ => {},
            }
        },
        MemoType::GiftCodeSender(a) => {
            match r {
                Ok(MemoType::GiftCodeSender(b)) => {
                    crate::gift_code_sender::lemma_gift_code_sender_round_trip(a, b);
                },
                _ => {},
            }
        },
        MemoType::Unused(_) => {
        },
    }
}

/// Whether two decoded memos carry the same tag, whatever their fields.
pub open spec fn memo_type_same_tag(m1: MemoType, m2: MemoType) -> bool {
    match (m1, m2) {
        (MemoType::AuthenticatedSender(_), MemoType::AuthenticatedSender(_)) => true,
        (MemoType::AuthenticatedSenderWithPaymentRequestId(_), MemoType::AuthenticatedSenderWithPaymentRequestId(_)) => true,
        (MemoType::AuthenticatedSenderWithPaymentIntentId(_), MemoType::AuthenticatedSenderWithPaymentIntentId(_)) => true,
        (MemoType::BurnRedemption(_), MemoType::BurnRedemption(_)) => true,
        (MemoType::Defragmentation(_), MemoType::Defragmentation(_)) => true,
        (MemoType::Destination(_), MemoType::Destination(_)) => true,
        (MemoType::DestinationWithPaymentRequestId(_), MemoType::DestinationWithPaymentRequestId(_)) => true,
        (MemoType::DestinationWithPaymentIntentId(_), MemoType::DestinationWithPaymentIntentId(_)) => true,
        (MemoType::GiftCodeCancellation(_), MemoType::GiftCodeCancellation(_)) => true,
        (MemoType::GiftCodeFunding(_), MemoType::GiftCodeFunding(_)) => true,
        (MemoType::GiftCodeSender(_), MemoType::GiftCodeSender(_)) => true,
        (MemoType::Unused(_), MemoType::Unused(_)) => true,
        _ => false,
    }
}

/// Uniqueness: two registered variants with different tags never share a
/// type code.
pub proof fn lemma_type_codes_unique(m1: MemoType, m2: MemoType)
    requires
        !memo_type_same_tag(m1, m2),
    ensures
        memo_type_code(m1) != memo_type_code(m2),
{
}

/// Distinctness: two valid memos that differ in tag or in any field value
/// classify, from their respective encodings, into decoded memos that also
/// differ — encoding and classification introduce no aliasing.
pub proof fn lemma_classify_keeps_distinct(
    m1: MemoType,
    m2: MemoType,
    p1: MemoPayload,
    p2: MemoPayload,
    r1: Result<MemoType, MemoDecodingError>,
    r2: Result<MemoType, MemoDecodingError>,
)
    requires
        memo_type_wf(m1),
        memo_type_wf(m2),
        p1.spec_type_code() == memo_type_code(m1),
        p1.spec_body() == memo_type_body(m1),
        p2.spec_type_code() == memo_type_code(m2),
        p2.spec_body() == memo_type_body(m2),
        classify_rel(p1, r1),
        classify_rel(p2, r2),
        !memo_type_matches(m1, m2),
    ensures
        r1 matches Ok(d1) && r2 matches Ok(d2) && !memo_type_matches(d1, d2),
{
    lemma_classify_round_trip(m1, p1, r1);
    lemma_classify_round_trip(m2, p2, r2);
}

} // verus!
