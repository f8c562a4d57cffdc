//! Key material as the memo framework consumes it: Ristretto private and
//! public keys held as 32-byte strings, public addresses, the short address
//! hash, and the sender memo credential. Key derivation beyond the basepoint
//! multiplication is out of this crate's scope; callers hand in already
//! derived bytes.

use vstd::prelude::*;

use crate::bytes::{clone_bytes, prefix, prefix_vec};
use crate::crypto::{base_mul, base_point_of, digest_of, point_decodes, sha512_digest};

verus! {

/// A Ristretto private key: 32 bytes, read as a scalar by the curve library.
pub struct RistrettoPrivate {
    bytes: Vec<u8>,
}

impl View for RistrettoPrivate {
    type V = Seq<u8>;

    closed spec fn view(&self) -> Seq<u8> {
        self.bytes@
    }
}

impl RistrettoPrivate {
    pub open spec fn wf(&self) -> bool {
        self@.len() == 32
    }

    /// Accepts exactly 32 bytes of private key material.
    pub fn from_bytes(bytes: Vec<u8>) -> (r: Option<Self>)
        ensures
            bytes@.len() == 32 ==> (r matches Some(k) && k@ == bytes@ && k.wf()),
            bytes@.len() != 32 ==> r is None,
    {
        if bytes.len() == 32 {
            Some(RistrettoPrivate { bytes })
        } else {
            None
        }
    }

    /// A copy of this key, byte for byte.
    pub fn duplicate(&self) -> (r: Self)
        ensures
            r@ == self@,
    {
        RistrettoPrivate { bytes: clone_bytes(&self.bytes) }
    }

    pub(crate) fn key_bytes(&self) -> (r: &Vec<u8>)
        ensures
            r@ == self@,
    {
        &self.bytes
    }
}

/// A compressed Ristretto public key: 32 bytes.
pub struct RistrettoPublic {
    bytes: Vec<u8>,
}

impl View for RistrettoPublic {
    type V = Seq<u8>;

    closed spec fn view(&self) -> Seq<u8> {
        self.bytes@
    }
}

impl RistrettoPublic {
    pub open spec fn wf(&self) -> bool {
        self@.len() == 32
    }

    /// Whether the bytes decode as a point, so that a key agreement against
    /// this key succeeds.
    pub open spec fn decodes(&self) -> bool {
        point_decodes(self@)
    }

    /// Accepts exactly 32 bytes of compressed public key material. The bytes
    /// are not decoded here; an agreement against a non-point simply fails.
    pub fn from_bytes(bytes: Vec<u8>) -> (r: Option<Self>)
        ensures
            bytes@.len() == 32 ==> (r matches Some(k) && k@ == bytes@ && k.wf()),
            bytes@.len() != 32 ==> r is None,
    {
        if bytes.len() == 32 {
            Some(RistrettoPublic { bytes })
        } else {
            None
        }
    }

    /// The public key of a private key: the basepoint multiple of its scalar.
    pub fn from_private(key: &RistrettoPrivate) -> (r: Self)
        requires
            key.wf(),
        ensures
            r@ == base_point_of(key@),
            r.wf(),
            r.decodes(),
    {
        RistrettoPublic { bytes: base_mul(key.key_bytes()) }
    }

    /// A copy of this key, byte for byte.
    pub fn duplicate(&self) -> (r: Self)
        ensures
            r@ == self@,
    {
        RistrettoPublic { bytes: clone_bytes(&self.bytes) }
    }

    pub(crate) fn key_bytes(&self) -> (r: &Vec<u8>)
        ensures
            r@ == self@,
    {
        &self.bytes
    }
}

/// A public address: the view and spend public keys a party publishes.
pub struct PublicAddress {
    view_public: RistrettoPublic,
    spend_public: RistrettoPublic,
}

impl PublicAddress {
    pub closed spec fn spec_view_public(&self) -> Seq<u8> {
        self.view_public@
    }

    pub closed spec fn spec_spend_public(&self) -> Seq<u8> {
        self.spend_public@
    }

    pub open spec fn wf(&self) -> bool {
        self.spec_view_public().len() == 32 && self.spec_spend_public().len() == 32
    }

    pub fn new(view_public: RistrettoPublic, spend_public: RistrettoPublic) -> (r: Self)
        ensures
            r.spec_view_public() == view_public@,
            r.spec_spend_public() == spend_public@,
    {
        PublicAddress { view_public, spend_public }
    }

    pub fn view_public_key(&self) -> (r: &RistrettoPublic)
        ensures
            r@ == self.spec_view_public(),
    {
        &self.view_public
    }

    pub fn spend_public_key(&self) -> (r: &RistrettoPublic)
        ensures
            r@ == self.spec_spend_public(),
    {
        &self.spend_public
    }
}

/// The short address hash of an address: the first 16 bytes of the SHA-512
/// digest of its view public key followed by its spend public key.
pub open spec fn short_hash_of(view_public: Seq<u8>, spend_public: Seq<u8>) -> Seq<u8> {
    prefix(digest_of(view_public + spend_public), 16)
}

/// A fixed-width truncated digest of a full public address, identifying a
/// party within the limited memo body bytes.
#[derive(Debug, PartialEq, Eq)]
pub struct ShortAddressHash {
    bytes: Vec<u8>,
}

impl View for ShortAddressHash {
    type V = Seq<u8>;

    closed spec fn view(&self) -> Seq<u8> {
        self.bytes@
    }
}

impl ShortAddressHash {
    pub open spec fn wf(&self) -> bool {
        self@.len() == 16
    }

    /// The short hash of an address.
    pub fn of_address(addr: &PublicAddress) -> (r: Self)
        ensures
            r@ == short_hash_of(addr.spec_view_public(), addr.spec_spend_public()),
            r.wf(),
    {
        let mut msg = clone_bytes(addr.view_public_key().key_bytes());
        msg.extend_from_slice(addr.spend_public_key().key_bytes().as_slice());
        proof {
            assert(msg@ =~= addr.spec_view_public() + addr.spec_spend_public());
        }
        let digest = sha512_digest(&msg);
        let bytes = prefix_vec(&digest, 16);
        proof {
            assert(bytes@ =~= short_hash_of(addr.spec_view_public(), addr.spec_spend_public()));
        }
        ShortAddressHash { bytes }
    }

    /// Accepts exactly 16 hash bytes.
    pub fn from_bytes(bytes: Vec<u8>) -> (r: Option<Self>)
        ensures
            bytes@.len() == 16 ==> (r matches Some(h) && h@ == bytes@ && h.wf()),
            bytes@.len() != 16 ==> r is None,
    {
        if bytes.len() == 16 {
            Some(ShortAddressHash { bytes })
        } else {
            None
        }
    }

    /// A copy of this hash, byte for byte.
    pub fn duplicate(&self) -> (r: Self)
        ensures
            r@ == self@,
    {
        ShortAddressHash { bytes: clone_bytes(&self.bytes) }
    }

    pub(crate) fn from_exact(bytes: Vec<u8>) -> (r: Self)
        requires
            bytes@.len() == 16,
        ensures
            r@ == bytes@,
            r.wf(),
    {
        ShortAddressHash { bytes }
    }

    pub(crate) fn hash_bytes(&self) -> (r: &Vec<u8>)
        ensures
            r@ == self@,
    {
        &self.bytes
    }
}

/// An account's key material: the view and spend private keys. The default
/// subaddress of this simplified account is the basepoint pair of the two
/// keys; richer subaddress derivation is key management, outside this crate.
pub struct AccountKey {
    view_private: RistrettoPrivate,
    spend_private: RistrettoPrivate,
}

impl AccountKey {
    pub closed spec fn spec_view_private(&self) -> Seq<u8> {
        self.view_private@
    }

    pub closed spec fn spec_spend_private(&self) -> Seq<u8> {
        self.spend_private@
    }

    pub open spec fn wf(&self) -> bool {
        self.spec_view_private().len() == 32 && self.spec_spend_private().len() == 32
    }

    pub fn new(view_private: &RistrettoPrivate, spend_private: &RistrettoPrivate) -> (r: Self)
        ensures
            r.spec_view_private() == view_private@,
            r.spec_spend_private() == spend_private@,
    {
        AccountKey {
            view_private: view_private.duplicate(),
            spend_private: spend_private.duplicate(),
        }
    }

    /// The address this account publishes: the public pair of its keys.
    pub fn default_subaddress(&self) -> (r: PublicAddress)
        requires
            self.wf(),
        ensures
            r.spec_view_public() == base_point_of(self.spec_view_private()),
            r.spec_spend_public() == base_point_of(self.spec_spend_private()),
            r.wf(),
            point_decodes(r.spec_view_public()),
            point_decodes(r.spec_spend_public()),
    {
        PublicAddress {
            view_public: RistrettoPublic::from_private(&self.view_private),
            spend_public: RistrettoPublic::from_private(&self.spend_private),
        }
    }

    /// The view private key matching the default subaddress.
    pub fn default_subaddress_view_private(&self) -> (r: RistrettoPrivate)
        ensures
            r@ == self.spec_view_private(),
    {
        self.view_private.duplicate()
    }
}

/// What a sending wallet needs to author authenticated sender memos: the
/// spend private key of its subaddress and that subaddress's short hash.
/// Derived once per transaction-building session and never serialized.
pub struct SenderMemoCredential {
    subaddress_spend_private: RistrettoPrivate,
    address_hash: ShortAddressHash,
}

impl SenderMemoCredential {
    pub closed spec fn spec_spend_private(&self) -> Seq<u8> {
        self.subaddress_spend_private@
    }

    pub closed spec fn spec_address_hash(&self) -> Seq<u8> {
        self.address_hash@
    }

    pub open spec fn wf(&self) -> bool {
        self.spec_spend_private().len() == 32 && self.spec_address_hash().len() == 16
    }

    /// The credential of an account, for its default subaddress: the hash is
    /// the short hash of the address the account publishes.
    pub fn from_account(account: &AccountKey) -> (r: Self)
        requires
            account.wf(),
        ensures
            r.spec_spend_private() == account.spec_spend_private(),
            r.spec_address_hash() == short_hash_of(
                base_point_of(account.spec_view_private()),
                base_point_of(account.spec_spend_private()),
            ),
            r.wf(),
    {
        let addr = account.default_subaddress();
        let hash = ShortAddressHash::of_address(&addr);
        SenderMemoCredential {
            subaddress_spend_private: RistrettoPrivate {
                bytes: clone_bytes(account.spend_private.key_bytes()),
            },
            address_hash: hash,
        }
    }

    pub(crate) fn spend_private_key(&self) -> (r: &RistrettoPrivate)
        ensures
            r@ == self.spec_spend_private(),
    {
        &self.subaddress_spend_private
    }

    pub fn address_hash(&self) -> (r: &ShortAddressHash)
        ensures
            r@ == self.spec_address_hash(),
    {
        &self.address_hash
    }
}

} // verus!
