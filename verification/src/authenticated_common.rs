//! The sender authentication primitive shared by the authenticated-sender
//! memo family: a keyed authentication tag over the memo's plaintext fields
//! under the Diffie-Hellman shared secret of sender and recipient.

use vstd::prelude::*;

use crate::bytes::{clone_bytes, prefix, prefix_vec};
use crate::crypto::{
    base_point_of, compute_hmac_sha512, constant_time_eq_pair, dh_exchange, dh_of, hmac_sha512,
    point_decodes,
};
use crate::keys::{short_hash_of, PublicAddress, RistrettoPrivate, RistrettoPublic, ShortAddressHash};

verus! {

/// The full 64-byte keyed mac over a memo's plaintext: the type code, the
/// per-output tx public key, the sender's short address hash and any
/// auxiliary data, under the shared secret.
pub open spec fn auth_memo_mac(
    shared_secret: Seq<u8>,
    type_code: Seq<u8>,
    tx_public_key: Seq<u8>,
    hash: Seq<u8>,
    data: Seq<u8>,
) -> Seq<u8> {
    hmac_sha512(shared_secret, type_code + tx_public_key + hash + data)
}

/// The authentication tag a memo stores: the first `tag_len` bytes of the
/// keyed mac.
pub open spec fn auth_tag(
    shared_secret: Seq<u8>,
    type_code: Seq<u8>,
    tx_public_key: Seq<u8>,
    hash: Seq<u8>,
    data: Seq<u8>,
    tag_len: nat,
) -> Seq<u8> {
    prefix(auth_memo_mac(shared_secret, type_code, tx_public_key, hash, data), tag_len)
}

/// Whether a stored short address hash and tag authenticate under a candidate
/// sender address, the recipient's view private key and the output's tx
/// public key: the address's spend key must decode, the hash must be the
/// candidate's short hash, and the tag must be the one recomputed from the
/// recipient-side shared secret.
pub open spec fn auth_validates(
    stored_hash: Seq<u8>,
    stored_tag: Seq<u8>,
    type_code: Seq<u8>,
    data: Seq<u8>,
    tag_len: nat,
    addr_view_public: Seq<u8>,
    addr_spend_public: Seq<u8>,
    view_private: Seq<u8>,
    tx_public_key: Seq<u8>,
) -> bool {
    &&& point_decodes(addr_spend_public)
    &&& stored_hash == short_hash_of(addr_view_public, addr_spend_public)
    &&& stored_tag == auth_tag(
        dh_of(view_private, addr_spend_public),
        type_code,
        tx_public_key,
        stored_hash,
        data,
        tag_len,
    )
}

/// Computes the authentication tag an authenticated-sender memo stores:
/// the first `tag_len` bytes of the keyed mac over type code, tx public key,
/// short address hash and auxiliary data under the shared secret.
pub fn compute_authenticated_sender_memo(
    memo_type: &Vec<u8>,
    shared_secret: &Vec<u8>,
    tx_public_key: &Vec<u8>,
    hash: &Vec<u8>,
    data: &Vec<u8>,
    tag_len: usize,
) -> (r: Vec<u8>)
    requires
        shared_secret@.len() <= 128,
        tag_len <= 64,
    ensures
        r@ == auth_tag(
            shared_secret@,
            memo_type@,
            tx_public_key@,
            hash@,
            data@,
            tag_len as nat,
        ),
        r@.len() == tag_len,
{
    let mut msg = clone_bytes(memo_type);
    msg.extend_from_slice(tx_public_key.as_slice());
    msg.extend_from_slice(hash.as_slice());
    msg.extend_from_slice(data.as_slice());
    proof {
        assert(msg@ =~= memo_type@ + tx_public_key@ + hash@ + data@);
    }
    let mac = compute_hmac_sha512(shared_secret, &msg);
    let r = prefix_vec(&mac, tag_len);
    proof {
        assert(r@ =~= auth_tag(
            shared_secret@,
            memo_type@,
            tx_public_key@,
            hash@,
            data@,
            tag_len as nat,
        ));
    }
    r
}

/// Recomputes and checks an authenticated-sender memo's hash and tag against
/// a candidate sender address. The result is exactly `auth_validates`; and
/// whenever the stored fields are the ones the sender-side construction
/// produces for this very address, recipient key and tx key, the result is
/// true — the recipient-side shared secret agrees with the sender-side one.
/// Both comparisons are made in constant time and combined without a branch.
pub(crate) fn validate_parts(
    stored_hash: &Vec<u8>,
    stored_tag: &Vec<u8>,
    memo_type: &Vec<u8>,
    data: &Vec<u8>,
    tag_len: usize,
    addr: &PublicAddress,
    view_private: &RistrettoPrivate,
    tx_public_key: &RistrettoPublic,
) -> (r: bool)
    requires
        addr.wf(),
        view_private.wf(),
        tag_len <= 64,
    ensures
        r == auth_validates(
            stored_hash@,
            stored_tag@,
            memo_type@,
            data@,
            tag_len as nat,
            addr.spec_view_public(),
            addr.spec_spend_public(),
            view_private@,
            tx_public_key@,
        ),
        forall|sender_spend: Seq<u8>|
            (addr.spec_spend_public() == #[trigger] base_point_of(sender_spend)
                && stored_hash@ == short_hash_of(
                addr.spec_view_public(),
                addr.spec_spend_public(),
            ) && stored_tag@ == auth_tag(
                dh_of(sender_spend, base_point_of(view_private@)),
                memo_type@,
                tx_public_key@,
                stored_hash@,
                data@,
                tag_len as nat,
            )) ==> r,
{
    let addr_hash = ShortAddressHash::of_address(addr);
    let secret_opt = dh_exchange(view_private.key_bytes(), addr.spend_public_key().key_bytes());
    match secret_opt {
        None => {
            proof {
                assert forall|sender_spend: Seq<u8>|
                    !(addr.spec_spend_public() == #[trigger] base_point_of(sender_spend)) by {}
            }
            false
        },
        Some(secret) => {
            let expected = compute_authenticated_sender_memo(
                memo_type,
                &secret,
                tx_public_key.key_bytes(),
                addr_hash.hash_bytes(),
                data,
                tag_len,
            );
            let r = constant_time_eq_pair(stored_hash, addr_hash.hash_bytes(), stored_tag, &expected);
            proof {
                assert forall|sender_spend: Seq<u8>|
                    (addr.spec_spend_public() == #[trigger] base_point_of(sender_spend)
                        && stored_hash@ == short_hash_of(
                        addr.spec_view_public(),
                        addr.spec_spend_public(),
                    ) && stored_tag@ == auth_tag(
                        dh_of(sender_spend, base_point_of(view_private@)),
                        memo_type@,
                        tx_public_key@,
                        stored_hash@,
                        data@,
                        tag_len as nat,
                    )) implies r by {
                    assert(secret@ == dh_of(sender_spend, base_point_of(view_private@)));
                }
            }
            r
        },
    }
}

/// Builds the sender-side fields of an authenticated memo: the credential's
/// short address hash and the tag under the sender-side shared secret.
pub(crate) fn build_parts(
    spend_private: &RistrettoPrivate,
    address_hash: &ShortAddressHash,
    recipient_view_public: &RistrettoPublic,
    tx_public_key: &RistrettoPublic,
    memo_type: &Vec<u8>,
    data: &Vec<u8>,
    tag_len: usize,
) -> (r: (Vec<u8>, Vec<u8>))
    requires
        spend_private.wf(),
        recipient_view_public.wf(),
        recipient_view_public.decodes(),
        tag_len <= 64,
    ensures
        r.0@ == address_hash@,
        r.1@ == auth_tag(
            dh_of(spend_private@, recipient_view_public@),
            memo_type@,
            tx_public_key@,
            address_hash@,
            data@,
            tag_len as nat,
        ),
        r.1@.len() == tag_len,
{
    let secret_opt = dh_exchange(spend_private.key_bytes(), recipient_view_public.key_bytes());
    let secret = match secret_opt {
        Some(s) => s,
        None => {
            proof {
                assert(false);
            }
            Vec::new()
        },
    };
    let tag = compute_authenticated_sender_memo(
        memo_type,
        &secret,
        tx_public_key.key_bytes(),
        address_hash.hash_bytes(),
        data,
        tag_len,
    );
    (clone_bytes(address_hash.hash_bytes()), tag)
}

} // verus!
