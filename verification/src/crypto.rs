//! The cryptographic primitives behind the authenticated-sender memos: the
//! Ristretto key agreement and SHA-512 digest are called in outside crates and
//! are trusted at their stated contracts; the HMAC construction over the
//! digest is verified here.

use sha2::Digest;
use subtle::ConstantTimeEq;
use vstd::prelude::*;

verus! {

/// The SHA-512 digest of a byte string.
pub uninterp spec fn digest_of(msg: Seq<u8>) -> Seq<u8>;

/// The compressed Ristretto basepoint multiple of the scalar read from 32
/// bytes: the public key belonging to those private key bytes.
pub uninterp spec fn base_point_of(scalar: Seq<u8>) -> Seq<u8>;

/// The compressed product of the scalar read from the first argument and the
/// point decoded from the second: the Diffie-Hellman shared secret.
pub uninterp spec fn dh_of(scalar: Seq<u8>, point: Seq<u8>) -> Seq<u8>;

/// Whether 32 bytes are a canonical Ristretto point encoding.
pub uninterp spec fn point_decodes(point: Seq<u8>) -> bool;

/// Relies on `sha2::Sha512::digest`: the 64-byte SHA-512 digest of the input,
/// a function of the input bytes alone.
#[verifier::external_body]
pub(crate) fn sha512_digest(msg: &Vec<u8>) -> (r: Vec<u8>)
    ensures
        r@ == digest_of(msg@),
        r@.len() == 64,
{
    sha2::Sha512::digest(msg.as_slice()).to_vec()
}

/// Relies on `curve25519_dalek`: `Scalar::from_bytes_mod_order` followed by
/// `RistrettoPoint::mul_base` and `compress`. The result is a function of the
/// scalar bytes alone, and a compressed real point decompresses again, the
/// encoding being canonical.
#[verifier::external_body]
pub(crate) fn base_mul(scalar: &Vec<u8>) -> (r: Vec<u8>)
    requires
        scalar@.len() == 32,
    ensures
        r@ == base_point_of(scalar@),
        r@.len() == 32,
        point_decodes(r@),
{
    let mut b = [0u8; 32];
    b.copy_from_slice(scalar.as_slice());
    let s = curve25519_dalek::scalar::Scalar::from_bytes_mod_order(b);
    curve25519_dalek::ristretto::RistrettoPoint::mul_base(&s)
        .compress()
        .to_bytes()
        .to_vec()
}

/// Relies on `curve25519_dalek::ristretto::CompressedRistretto::decompress`:
/// whether the bytes are a canonical point encoding, a function of the bytes
/// alone.
#[verifier::external_body]
pub(crate) fn point_bytes_decode(point: &Vec<u8>) -> (r: bool)
    requires
        point@.len() == 32,
    ensures
        r == point_decodes(point@),
{
    match curve25519_dalek::ristretto::CompressedRistretto::from_slice(point.as_slice()) {
        Ok(c) => c.decompress().is_some(),
        Err(_) => false,
    }
}

/// Relies on `curve25519_dalek`: decompression of the point, multiplication
/// by the scalar read from 32 bytes, and recompression. The result is a
/// function of the inputs alone; scalar multiplication is the group action,
/// so on a basepoint multiple the two scalars commute — the Diffie-Hellman
/// agreement that sender and recipient of an authenticated memo share.
#[verifier::external_body]
pub(crate) fn dh_exchange(scalar: &Vec<u8>, point: &Vec<u8>) -> (r: Option<Vec<u8>>)
    requires
        scalar@.len() == 32,
        point@.len() == 32,
    ensures
        r is Some <==> point_decodes(point@),
        forall|t: Seq<u8>| point@ == #[trigger] base_point_of(t) ==> r is Some,
        r matches Some(v) ==> v@ == dh_of(scalar@, point@) && v@.len() == 32,
        r matches Some(v) ==> forall|t: Seq<u8>|
            point@ == #[trigger] base_point_of(t) ==> v@ == dh_of(t, base_point_of(scalar@)),
{
    let mut b = [0u8; 32];
    b.copy_from_slice(scalar.as_slice());
    let s = curve25519_dalek::scalar::Scalar::from_bytes_mod_order(b);
    let c = curve25519_dalek::ristretto::CompressedRistretto::from_slice(point.as_slice()).ok()?;
    let p = c.decompress()?;
    Some((&s * &p).compress().to_bytes().to_vec())
}

/// Relies on `subtle::ConstantTimeEq` for byte slices (true exactly when the
/// slices are equal) and on `Choice`'s bitwise and: both comparisons are made
/// and combined without a branch on secret-derived data.
#[verifier::external_body]
pub(crate) fn constant_time_eq_pair(a1: &Vec<u8>, b1: &Vec<u8>, a2: &Vec<u8>, b2: &Vec<u8>) -> (r: bool)
    ensures
        r <==> (a1@ == b1@ && a2@ == b2@),
{
    bool::from(
        a1.as_slice().ct_eq(b1.as_slice()) & a2.as_slice().ct_eq(b2.as_slice()),
    )
}

/// A key zero-padded to the 128-byte SHA-512 block and combined with the
/// given padding byte, as HMAC prescribes.
pub open spec fn xor_pad(key: Seq<u8>, pad: u8) -> Seq<u8> {
    Seq::new(128, |i: int| if i < key.len() { key[i] ^ pad } else { pad })
}

/// HMAC-SHA-512 of a message under a key of at most one block: the digest
/// applied twice, over the inner- and then the outer-padded key.
pub open spec fn hmac_sha512(key: Seq<u8>, msg: Seq<u8>) -> Seq<u8>
    recommends
        key.len() <= 128,
{
    digest_of(xor_pad(key, 0x5c) + digest_of(xor_pad(key, 0x36) + msg))
}

fn xor_pad_vec(key: &Vec<u8>, pad: u8) -> (r: Vec<u8>)
    requires
        key@.len() <= 128,
    ensures
        r@ =~= xor_pad(key@, pad),
{
    let klen: usize = key.len();
    let mut r: Vec<u8> = Vec::new();
    let mut i: usize = 0;
    while i < 128
        invariant
            i <= 128,
            key@.len() == klen,
            klen <= 128,
            r@.len() == i,
            forall|j: int| 0 <= j < i ==> r@[j] == (if j < key@.len() {
                key@[j] ^ pad
            } else {
                pad
            }),
        decreases 128 - i,
    {
        if i < klen {
            r.push(key[i] ^ pad);
        } else {
            r.push(pad);
        }
        i = i + 1;
    }
    proof {
        assert(r@ =~= xor_pad(key@, pad));
    }
    r
}

/// Computes HMAC-SHA-512, verified down to the two digest calls.
pub fn compute_hmac_sha512(key: &Vec<u8>, msg: &Vec<u8>) -> (r: Vec<u8>)
    requires
        key@.len() <= 128,
    ensures
        r@ == hmac_sha512(key@, msg@),
        r@.len() == 64,
{
    let mut inner = xor_pad_vec(key, 0x36);
    inner.extend_from_slice(msg.as_slice());
    proof {
        assert(inner@ =~= xor_pad(key@, 0x36) + msg@);
    }
    let inner_digest = sha512_digest(&inner);
    let mut outer = xor_pad_vec(key, 0x5c);
    outer.extend_from_slice(inner_digest.as_slice());
    proof {
        assert(outer@ =~= xor_pad(key@, 0x5c) + digest_of(xor_pad(key@, 0x36) + msg@));
    }
    sha512_digest(&outer)
}

} // verus!
