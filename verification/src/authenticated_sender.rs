//! The authenticated sender memo: type code `0x0100`. It proves to the
//! recipient that the memo came from the holder of the hashed address,
//! without a separate signature scheme.

use vstd::prelude::*;

use crate::authenticated_common::{auth_tag, auth_validates, build_parts, validate_parts};
use crate::bytes::{clone_bytes, sub_vec};
use crate::crypto::{base_point_of, dh_of, point_bytes_decode};
use crate::keys::{
    short_hash_of, AccountKey, PublicAddress, RistrettoPrivate, RistrettoPublic,
    SenderMemoCredential, ShortAddressHash,
};
use crate::registry::RegisteredMemoType;

verus! {

/// Body layout: sender's short address hash (16 bytes) followed by the
/// authentication tag (48 bytes).
#[derive(Debug, PartialEq, Eq)]
pub struct AuthenticatedSenderMemo {
    address_hash: ShortAddressHash,
    tag: Vec<u8>,
}

impl AuthenticatedSenderMemo {
    pub closed spec fn spec_address_hash(&self) -> Seq<u8> {
        self.address_hash@
    }

    pub closed spec fn spec_tag(&self) -> Seq<u8> {
        self.tag@
    }

    /// Builds the memo a sender attaches: the credential's short address
    /// hash, and the tag over it under the sender-side shared secret with
    /// the recipient's view key, bound to the output's tx public key.
    pub fn new(
        cred: &SenderMemoCredential,
        recipient_view_public: &RistrettoPublic,
        tx_out_public_key: &RistrettoPublic,
    ) -> (r: Self)
        requires
            cred.wf(),
            recipient_view_public.wf(),
            recipient_view_public.decodes(),
        ensures
            r.spec_address_hash() == cred.spec_address_hash(),
            r.spec_tag() == auth_tag(
                dh_of(cred.spec_spend_private(), recipient_view_public@),
                Self::spec_type_code(),
                tx_out_public_key@,
                cred.spec_address_hash(),
                Seq::<u8>::empty(),
                48,
            ),
            r.spec_wf(),
    {
        let empty: Vec<u8> = Vec::new();
        let (hash, tag) = build_parts(
            cred.spend_private_key(),
            cred.address_hash(),
            recipient_view_public,
            tx_out_public_key,
            &Self::memo_type_bytes(),
            &empty,
            48,
        );
        AuthenticatedSenderMemo { address_hash: ShortAddressHash::from_exact(hash), tag }
    }

    /// Like `new`, after first checking that the recipient's view key bytes
    /// decode as a point; `None` exactly when they do not.
    pub fn new_checked(
        cred: &SenderMemoCredential,
        recipient_view_public: &RistrettoPublic,
        tx_out_public_key: &RistrettoPublic,
    ) -> (r: Option<Self>)
        requires
            cred.wf(),
            recipient_view_public.wf(),
        ensures
            recipient_view_public.decodes() ==> (r matches Some(m) && m.spec_address_hash()
                == cred.spec_address_hash() && m.spec_tag() == auth_tag(
                dh_of(cred.spec_spend_private(), recipient_view_public@),
                Self::spec_type_code(),
                tx_out_public_key@,
                cred.spec_address_hash(),
                Seq::<u8>::empty(),
                48,
            ) && m.spec_wf()),
            !recipient_view_public.decodes() ==> r is None,
    {
        if point_bytes_decode(recipient_view_public.key_bytes()) {
            Some(Self::new(cred, recipient_view_public, tx_out_public_key))
        } else {
            None
        }
    }

    /// The short address hash of the claimed sender.
    pub fn sender_address_hash(&self) -> (r: ShortAddressHash)
        ensures
            r@ == self.spec_address_hash(),
    {
        self.address_hash.duplicate()
    }

    /// Recomputes the tag from the recipient's side and compares hash and
    /// tag in constant time. True exactly when the stored hash is the short
    /// hash of `sender_address` and the stored tag matches the recomputed
    /// one; in particular true whenever the memo was built by `new` for this
    /// very sender address, recipient key and tx key — the one matching
    /// combination — since the two shared secrets agree.
    pub fn validate(
        &self,
        sender_address: &PublicAddress,
        recipient_view_private: &RistrettoPrivate,
        tx_out_public_key: &RistrettoPublic,
    ) -> (r: bool)
        requires
            sender_address.wf(),
            recipient_view_private.wf(),
        ensures
            r == auth_validates(
                self.spec_address_hash(),
                self.spec_tag(),
                Self::spec_type_code(),
                Seq::<u8>::empty(),
                48,
                sender_address.spec_view_public(),
                sender_address.spec_spend_public(),
                recipient_view_private@,
                tx_out_public_key@,
            ),
            forall|sender_spend: Seq<u8>|
                (sender_address.spec_spend_public() == #[trigger] base_point_of(sender_spend)
                    && self.spec_address_hash() == short_hash_of(
                    sender_address.spec_view_public(),
                    sender_address.spec_spend_public(),
                ) && self.spec_tag() == auth_tag(
                    dh_of(sender_spend, base_point_of(recipient_view_private@)),
                    Self::spec_type_code(),
                    tx_out_public_key@,
                    self.spec_address_hash(),
                    Seq::<u8>::empty(),
                    48,
                )) ==> r,
    {
        let empty: Vec<u8> = Vec::new();
        validate_parts(
            self.address_hash.hash_bytes(),
            &self.tag,
            &Self::memo_type_bytes(),
            &empty,
            48,
            sender_address,
            recipient_view_private,
            tx_out_public_key,
        )
    }
}

impl RegisteredMemoType for AuthenticatedSenderMemo {
    open spec fn spec_type_code() -> Seq<u8> {
        seq![1u8, 0u8]
    }

    open spec fn spec_wf(&self) -> bool {
        self.spec_address_hash().len() == 16 && self.spec_tag().len() == 48
    }

    open spec fn spec_body(&self) -> Seq<u8> {
        self.spec_address_hash() + self.spec_tag()
    }

    fn memo_type_bytes() -> (r: Vec<u8>) {
        let mut r: Vec<u8> = Vec::new();
        r.push(1u8);
        r.push(0u8);
        proof {
            assert(r@ =~= Self::spec_type_code());
        }
        r
    }

    fn to_body(&self) -> (r: Vec<u8>) {
        let mut r = clone_bytes(self.address_hash.hash_bytes());
        r.extend_from_slice(self.tag.as_slice());
        proof {
            assert(r@ =~= self.spec_body());
        }
        r
    }

    fn from_body(body: &Vec<u8>) -> (r: Self)
        ensures
            r.spec_address_hash() == body@.subrange(0, 16),
            r.spec_tag() == body@.subrange(16, 64),
            r.spec_wf(),
    {
        AuthenticatedSenderMemo {
            address_hash: ShortAddressHash::from_exact(sub_vec(body, 0, 16)),
            tag: sub_vec(body, 16, 64),
        }
    }
}

/// Round trip: reading an authenticated sender memo's fields back out of the
/// body it encodes to recovers the hash and the tag exactly.
pub proof fn lemma_authenticated_sender_round_trip(
    m: AuthenticatedSenderMemo,
    m2: AuthenticatedSenderMemo,
)
    requires
        m.spec_wf(),
        m2.spec_address_hash() == m.spec_body().subrange(0, 16),
        m2.spec_tag() == m.spec_body().subrange(16, 64),
    ensures
        m2.spec_address_hash() == m.spec_address_hash(),
        m2.spec_tag() == m.spec_tag(),
{
    assert(m.spec_body().subrange(0, 16) =~= m.spec_address_hash());
    assert(m.spec_body().subrange(16, 64) =~= m.spec_tag());
}

/// Authentication soundness, checked by the verifier: an authenticated
/// sender memo built from a sender account to a recipient account over a tx
/// public key validates — returns true — for the matching triple of the
/// sender's address, the recipient's view private key and that same tx key.
/// That a mismatched triple validates as false is a collision-resistance
/// property of the keyed hash, outside what contracts state; the tests
/// exercise all seven mismatched combinations.
pub fn authenticated_sender_soundness(
    sender: &AccountKey,
    recipient: &AccountKey,
    tx_out_public_key: &RistrettoPublic,
) -> (r: bool)
    requires
        sender.wf(),
        recipient.wf(),
    ensures
        r,
{
    let cred = SenderMemoCredential::from_account(sender);
    let recipient_addr = recipient.default_subaddress();
    let sender_addr = sender.default_subaddress();
    let memo = AuthenticatedSenderMemo::new(&cred, recipient_addr.view_public_key(), tx_out_public_key);
    memo.validate(
        &sender_addr,
        &recipient.default_subaddress_view_private(),
        tx_out_public_key,
    )
}

} // verus!
