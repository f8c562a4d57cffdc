//! The gift code sender memo: type code `0x0002`. A fixed
//! sub-layout of a short address hash and an amount field; structurally a
//! simpler destination memo, with no confidential-fee semantics.

use vstd::prelude::*;

use crate::bytes::{
    be_decode, be_encode, be_seq, be_val, clone_bytes, lemma_be_seq_len, lemma_be_seq_val,
    lemma_pow256_values, sub_vec, zero_vec, zeros,
};
use crate::keys::ShortAddressHash;
use crate::registry::RegisteredMemoType;

verus! {

/// Body layout: short address hash (16 bytes) then the amount (8 bytes,
/// big-endian), the rest reserved zero bytes.
#[derive(Debug, PartialEq, Eq)]
pub struct GiftCodeSenderMemo {
    address_hash: ShortAddressHash,
    amount: u64,
}

impl GiftCodeSenderMemo {
    pub closed spec fn spec_address_hash(&self) -> Seq<u8> {
        self.address_hash@
    }

    pub closed spec fn spec_amount(&self) -> u64 {
        self.amount
    }

    /// Records the hash and amount; the amount occupies a full 8-byte field
    /// and cannot fail its width.
    pub fn new(address_hash: ShortAddressHash, amount: u64) -> (r: Self)
        requires
            address_hash.wf(),
        ensures
            r.spec_address_hash() == address_hash@,
            r.spec_amount() == amount,
            r.spec_wf(),
    {
        GiftCodeSenderMemo { address_hash, amount }
    }

    /// The short address hash recorded.
    pub fn get_address_hash(&self) -> (r: &ShortAddressHash)
        ensures
            r@ == self.spec_address_hash(),
    {
        &self.address_hash
    }

    /// The amount recorded.
    pub fn get_amount(&self) -> (r: u64)
        ensures
            r == self.spec_amount(),
    {
        self.amount
    }
}

impl RegisteredMemoType for GiftCodeSenderMemo {
    open spec fn spec_type_code() -> Seq<u8> {
        seq![0u8, 2u8]
    }

    open spec fn spec_wf(&self) -> bool {
        self.spec_address_hash().len() == 16
    }

    open spec fn spec_body(&self) -> Seq<u8> {
        self.spec_address_hash() + be_seq(self.spec_amount() as int, 8) + zeros(40)
    }

    fn memo_type_bytes() -> (r: Vec<u8>) {
        let mut r: Vec<u8> = Vec::new();
        r.push(0u8);
        r.push(2u8);
        proof {
            assert(r@ =~= Self::spec_type_code());
        }
        r
    }

    fn to_body(&self) -> (r: Vec<u8>) {
        proof {
            lemma_pow256_values();
        }
        let mut r = clone_bytes(self.address_hash.hash_bytes());
        let amount_bytes = be_encode(self.amount, 8);
        r.extend_from_slice(amount_bytes.as_slice());
        let pad = zero_vec(40);
        r.extend_from_slice(pad.as_slice());
        proof {
            assert(r@ =~= self.spec_body());
        }
        r
    }

    fn from_body(body: &Vec<u8>) -> (r: Self)
        ensures
            r.spec_address_hash() == body@.subrange(0, 16),
            r.spec_amount() as int == be_val(body@.subrange(16, 24)),
            r.spec_wf(),
    {
        GiftCodeSenderMemo {
            address_hash: ShortAddressHash::from_exact(sub_vec(body, 0, 16)),
            amount: be_decode(body, 16, 8),
        }
    }
}

/// Round trip: reading the fields back out of the body this memo encodes to
/// recovers the hash and the amount exactly.
pub proof fn lemma_gift_code_sender_round_trip(m: GiftCodeSenderMemo, m2: GiftCodeSenderMemo)
    requires
        m.spec_wf(),
        m2.spec_address_hash() == m.spec_body().subrange(0, 16),
        m2.spec_amount() as int == be_val(m.spec_body().subrange(16, 24)),
    ensures
        m2.spec_address_hash() == m.spec_address_hash(),
        m2.spec_amount() == m.spec_amount(),
{
    lemma_be_seq_len(m.spec_amount() as int, 8);
    assert(m.spec_body().subrange(0, 16) =~= m.spec_address_hash());
    assert(m.spec_body().subrange(16, 24) =~= be_seq(m.spec_amount() as int, 8));
    lemma_pow256_values();
    lemma_be_seq_val(m.spec_amount() as int, 8);
}

} // verus!
