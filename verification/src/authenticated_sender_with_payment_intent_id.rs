//! The authenticated sender memo with a payment intent id: type code `0x0102`.
//! Structurally the authenticated sender memo, with an 8-byte payment intent id
//! bound into the tag and stored in plaintext after the address hash.

use vstd::prelude::*;

use crate::authenticated_common::{auth_tag, auth_validates, build_parts, validate_parts};
use crate::bytes::{be_decode, be_encode, be_seq, be_val, clone_bytes, lemma_be_seq_val, lemma_pow256_values, pow256, sub_vec};
use crate::crypto::{base_point_of, dh_of, point_bytes_decode};
use crate::keys::{
    short_hash_of, PublicAddress, RistrettoPrivate, RistrettoPublic, SenderMemoCredential,
    ShortAddressHash,
};
use crate::registry::RegisteredMemoType;

verus! {

/// Body layout: sender's short address hash (16 bytes), the payment intent id
/// (8 bytes, big-endian), then the authentication tag (40 bytes).
#[derive(Debug, PartialEq, Eq)]
pub struct AuthenticatedSenderWithPaymentIntentIdMemo {
    address_hash: ShortAddressHash,
    payment_intent_id: u64,
    tag: Vec<u8>,
}

impl AuthenticatedSenderWithPaymentIntentIdMemo {
    pub closed spec fn spec_address_hash(&self) -> Seq<u8> {
        self.address_hash@
    }

    pub closed spec fn spec_payment_intent_id(&self) -> u64 {
        self.payment_intent_id
    }

    pub closed spec fn spec_tag(&self) -> Seq<u8> {
        self.tag@
    }

    /// Builds the memo a sender attaches: credential hash, the payment intent id in
    /// plaintext, and the tag binding both under the sender-side shared
    /// secret, bound to the output's tx public key.
    pub fn new(
        cred: &SenderMemoCredential,
        recipient_view_public: &RistrettoPublic,
        tx_out_public_key: &RistrettoPublic,
        payment_intent_id: u64,
    ) -> (r: Self)
        requires
            cred.wf(),
            recipient_view_public.wf(),
            recipient_view_public.decodes(),
        ensures
            r.spec_address_hash() == cred.spec_address_hash(),
            r.spec_payment_intent_id() == payment_intent_id,
            r.spec_tag() == auth_tag(
                dh_of(cred.spec_spend_private(), recipient_view_public@),
                Self::spec_type_code(),
                tx_out_public_key@,
                cred.spec_address_hash(),
                be_seq(payment_intent_id as int, 8),
                40,
            ),
            r.spec_wf(),
    {
        proof {
            lemma_pow256_values();
        }
        let data = be_encode(payment_intent_id, 8);
        let (hash, tag) = build_parts(
            cred.spend_private_key(),
            cred.address_hash(),
            recipient_view_public,
            tx_out_public_key,
            &Self::memo_type_bytes(),
            &data,
            40,
        );
        AuthenticatedSenderWithPaymentIntentIdMemo {
            address_hash: ShortAddressHash::from_exact(hash),
            payment_intent_id,
            tag,
        }
    }

    /// Like `new`, after first checking that the recipient's view key bytes
    /// decode as a point; `None` exactly when they do not.
    pub fn new_checked(
        cred: &SenderMemoCredential,
        recipient_view_public: &RistrettoPublic,
        tx_out_public_key: &RistrettoPublic,
        payment_intent_id: u64,
    ) -> (r: Option<Self>)
        requires
            cred.wf(),
            recipient_view_public.wf(),
        ensures
            recipient_view_public.decodes() ==> (r matches Some(m) && m.spec_address_hash()
                == cred.spec_address_hash() && m.spec_payment_intent_id() == payment_intent_id && m.spec_tag()
                == auth_tag(
                dh_of(cred.spec_spend_private(), recipient_view_public@),
                Self::spec_type_code(),
                tx_out_public_key@,
                cred.spec_address_hash(),
                be_seq(payment_intent_id as int, 8),
                40,
            ) && m.spec_wf()),
            !recipient_view_public.decodes() ==> r is None,
    {
        if point_bytes_decode(recipient_view_public.key_bytes()) {
            Some(Self::new(cred, recipient_view_public, tx_out_public_key, payment_intent_id))
        } else {
            None
        }
    }

    /// The short address hash of the claimed sender.
    pub fn sender_address_hash(&self) -> (r: ShortAddressHash)
        ensures
            r@ == self.spec_address_hash(),
    {
        self.address_hash.duplicate()
    }

    /// The payment intent id passed at construction, in plaintext; it is not
    /// separately authenticated beyond being bound into the tag.
    pub fn payment_intent_id(&self) -> (r: u64)
        ensures
            r == self.spec_payment_intent_id(),
    {
        self.payment_intent_id
    }

    /// Recomputes the tag from the recipient's side, over the stored hash
    /// and the stored payment intent id, and compares hash and tag in constant time.
    /// True exactly when hash and tag check out; in particular true whenever
    /// the memo was built by `new` for this very sender address, recipient
    /// key and tx key — the one matching combination.
    pub fn validate(
        &self,
        sender_address: &PublicAddress,
        recipient_view_private: &RistrettoPrivate,
        tx_out_public_key: &RistrettoPublic,
    ) -> (r: bool)
        requires
            sender_address.wf(),
            recipient_view_private.wf(),
        ensures
            r == auth_validates(
                self.spec_address_hash(),
                self.spec_tag(),
                Self::spec_type_code(),
                be_seq(self.spec_payment_intent_id() as int, 8),
                40,
                sender_address.spec_view_public(),
                sender_address.spec_spend_public(),
                recipient_view_private@,
                tx_out_public_key@,
            ),
            forall|sender_spend: Seq<u8>|
                (sender_address.spec_spend_public() == #[trigger] base_point_of(sender_spend)
                    && self.spec_address_hash() == short_hash_of(
                    sender_address.spec_view_public(),
                    sender_address.spec_spend_public(),
                ) && self.spec_tag() == auth_tag(
                    dh_of(sender_spend, base_point_of(recipient_view_private@)),
                    Self::spec_type_code(),
                    tx_out_public_key@,
                    self.spec_address_hash(),
                    be_seq(self.spec_payment_intent_id() as int, 8),
                    40,
                )) ==> r,
    {
        proof {
            lemma_pow256_values();
        }
        let data = be_encode(self.payment_intent_id, 8);
        validate_parts(
            self.address_hash.hash_bytes(),
            &self.tag,
            &Self::memo_type_bytes(),
            &data,
            40,
            sender_address,
            recipient_view_private,
            tx_out_public_key,
        )
    }
}

impl RegisteredMemoType for AuthenticatedSenderWithPaymentIntentIdMemo {
    open spec fn spec_type_code() -> Seq<u8> {
        seq![1u8, 2u8]
    }

    open spec fn spec_wf(&self) -> bool {
        self.spec_address_hash().len() == 16 && self.spec_tag().len() == 40
    }

    open spec fn spec_body(&self) -> Seq<u8> {
        self.spec_address_hash() + be_seq(self.spec_payment_intent_id() as int, 8) + self.spec_tag()
    }

    fn memo_type_bytes() -> (r: Vec<u8>) {
        let mut r: Vec<u8> = Vec::new();
        r.push(1u8);
        r.push(2u8);
        proof {
            assert(r@ =~= Self::spec_type_code());
        }
        r
    }

    fn to_body(&self) -> (r: Vec<u8>) {
        proof {
            lemma_pow256_values();
        }
        let mut r = clone_bytes(self.address_hash.hash_bytes());
        let aux = be_encode(self.payment_intent_id, 8);
        r.extend_from_slice(aux.as_slice());
        r.extend_from_slice(self.tag.as_slice());
        proof {
            assert(r@ =~= self.spec_body());
        }
        r
    }

    fn from_body(body: &Vec<u8>) -> (r: Self)
        ensures
            r.spec_address_hash() == body@.subrange(0, 16),
            r.spec_payment_intent_id() as int == be_val(body@.subrange(16, 24)),
            r.spec_tag() == body@.subrange(24, 64),
            r.spec_wf(),
    {
        AuthenticatedSenderWithPaymentIntentIdMemo {
            address_hash: ShortAddressHash::from_exact(sub_vec(body, 0, 16)),
            payment_intent_id: be_decode(body, 16, 8),
            tag: sub_vec(body, 24, 64),
        }
    }
}

/// Round trip: reading the fields back out of the body this memo encodes to
/// recovers the hash, the payment intent id and the tag exactly.
pub proof fn lemma_authenticated_sender_with_payment_intent_id_round_trip(
    m: AuthenticatedSenderWithPaymentIntentIdMemo,
    m2: AuthenticatedSenderWithPaymentIntentIdMemo,
)
    requires
        m.spec_wf(),
        m2.spec_address_hash() == m.spec_body().subrange(0, 16),
        m2.spec_payment_intent_id() as int == be_val(m.spec_body().subrange(16, 24)),
        m2.spec_tag() == m.spec_body().subrange(24, 64),
    ensures
        m2.spec_address_hash() == m.spec_address_hash(),
        m2.spec_payment_intent_id() == m.spec_payment_intent_id(),
        m2.spec_tag() == m.spec_tag(),
{
    crate::bytes::lemma_be_seq_len(m.spec_payment_intent_id() as int, 8);
    assert(m.spec_body().subrange(0, 16) =~= m.spec_address_hash());
    assert(m.spec_body().subrange(16, 24) =~= be_seq(m.spec_payment_intent_id() as int, 8));
    assert(m.spec_body().subrange(24, 64) =~= m.spec_tag());
    lemma_pow256_values();
    lemma_be_seq_val(m.spec_payment_intent_id() as int, 8);
}

} // verus!
