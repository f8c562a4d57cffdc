//! The defragmentation memo: type code `0x0003`. A sender's record of a
//! self-payment made to consolidate funds: the hash of the address paid,
//! with the outlay and fee in bounded fixed-width fields.

use vstd::prelude::*;

use crate::bytes::{
    be_decode, be_encode, be_seq, be_val, clone_bytes, lemma_be_seq_len, lemma_be_seq_val,
    lemma_pow256_values, pow256, sub_vec, zero_vec, zeros,
};
use crate::keys::ShortAddressHash;
use crate::registry::RegisteredMemoType;

verus! {

/// A defragmentation field failed its fixed byte width; nothing was written.
#[derive(Clone, Copy, Debug, PartialEq, Eq)]
pub enum DefragmentationMemoError {
    /// The fee does not fit its 7-byte big-endian field.
    FeeTooLarge,
    /// The total outlay does not fit its 7-byte big-endian field.
    TotalOutlayTooLarge,
}

/// Body layout: short address hash (16 bytes), total outlay (7 bytes,
/// big-endian), fee (7 bytes, big-endian), the rest reserved zero bytes.
#[derive(Debug, PartialEq, Eq)]
pub struct DefragmentationMemo {
    address_hash: ShortAddressHash,
    total_outlay: u64,
    fee: u64,
}

impl DefragmentationMemo {
    pub closed spec fn spec_address_hash(&self) -> Seq<u8> {
        self.address_hash@
    }

    pub closed spec fn spec_total_outlay(&self) -> u64 {
        self.total_outlay
    }

    pub closed spec fn spec_fee(&self) -> u64 {
        self.fee
    }

    /// Records the hash, outlay and fee; all-or-nothing, failing exactly
    /// when a field exceeds its 7-byte width (the fee is checked first).
    pub fn new(address_hash: ShortAddressHash, total_outlay: u64, fee: u64) -> (r: Result<
        Self,
        DefragmentationMemoError,
    >)
        requires
            address_hash.wf(),
        ensures
            (fee as int) >= pow256(7) ==> (r matches Err(e) && e
                == DefragmentationMemoError::FeeTooLarge),
            (fee as int) < pow256(7) && (total_outlay as int) >= pow256(7) ==> (r matches Err(e)
                && e == DefragmentationMemoError::TotalOutlayTooLarge),
            (fee as int) < pow256(7) && (total_outlay as int) < pow256(7) ==> (r matches Ok(m)
                && m.spec_address_hash() == address_hash@ && m.spec_total_outlay() == total_outlay
                && m.spec_fee() == fee && m.spec_wf()),
    {
        proof {
            lemma_pow256_values();
        }
        if fee >= 0x100_0000_0000_0000u64 {
            Err(DefragmentationMemoError::FeeTooLarge)
        } else if total_outlay >= 0x100_0000_0000_0000u64 {
            Err(DefragmentationMemoError::TotalOutlayTooLarge)
        } else {
            Ok(DefragmentationMemo { address_hash, total_outlay, fee })
        }
    }

    /// The short address hash recorded.
    pub fn get_address_hash(&self) -> (r: &ShortAddressHash)
        ensures
            r@ == self.spec_address_hash(),
    {
        &self.address_hash
    }

    /// The total outlay recorded.
    pub fn get_total_outlay(&self) -> (r: u64)
        ensures
            r == self.spec_total_outlay(),
    {
        self.total_outlay
    }

    /// The fee recorded.
    pub fn get_fee(&self) -> (r: u64)
        ensures
            r == self.spec_fee(),
    {
        self.fee
    }
}

impl RegisteredMemoType for DefragmentationMemo {
    open spec fn spec_type_code() -> Seq<u8> {
        seq![0u8, 3u8]
    }

    open spec fn spec_wf(&self) -> bool {
        self.spec_address_hash().len() == 16 && (self.spec_total_outlay() as int) < pow256(7)
            && (self.spec_fee() as int) < pow256(7)
    }

    open spec fn spec_body(&self) -> Seq<u8> {
        self.spec_address_hash() + be_seq(self.spec_total_outlay() as int, 7) + be_seq(
            self.spec_fee() as int,
            7,
        ) + zeros(34)
    }

    fn memo_type_bytes() -> (r: Vec<u8>) {
        let mut r: Vec<u8> = Vec::new();
        r.push(0u8);
        r.push(3u8);
        proof {
            assert(r@ =~= Self::spec_type_code());
        }
        r
    }

    fn to_body(&self) -> (r: Vec<u8>) {
        let mut r = clone_bytes(self.address_hash.hash_bytes());
        let outlay_bytes = be_encode(self.total_outlay, 7);
        r.extend_from_slice(outlay_bytes.as_slice());
        let fee_bytes = be_encode(self.fee, 7);
        r.extend_from_slice(fee_bytes.as_slice());
        let pad = zero_vec(34);
        r.extend_from_slice(pad.as_slice());
        proof {
            assert(r@ =~= self.spec_body());
        }
        r
    }

    fn from_body(body: &Vec<u8>) -> (r: Self)
        ensures
            r.spec_address_hash() == body@.subrange(0, 16),
            r.spec_total_outlay() as int == be_val(body@.subrange(16, 23)),
            r.spec_fee() as int == be_val(body@.subrange(23, 30)),
            r.spec_wf(),
    {
        DefragmentationMemo {
            address_hash: ShortAddressHash::from_exact(sub_vec(body, 0, 16)),
            total_outlay: be_decode(body, 16, 7),
            fee: be_decode(body, 23, 7),
        }
    }
}

/// Round trip: reading the fields back out of the body a defragmentation
/// memo encodes to recovers hash, outlay and fee exactly.
pub proof fn lemma_defragmentation_round_trip(m: DefragmentationMemo, m2: DefragmentationMemo)
    requires
        m.spec_wf(),
        m2.spec_address_hash() == m.spec_body().subrange(0, 16),
        m2.spec_total_outlay() as int == be_val(m.spec_body().subrange(16, 23)),
        m2.spec_fee() as int == be_val(m.spec_body().subrange(23, 30)),
    ensures
        m2.spec_address_hash() == m.spec_address_hash(),
        m2.spec_total_outlay() == m.spec_total_outlay(),
        m2.spec_fee() == m.spec_fee(),
{
    lemma_be_seq_len(m.spec_total_outlay() as int, 7);
    lemma_be_seq_len(m.spec_fee() as int, 7);
    assert(m.spec_body().subrange(0, 16) =~= m.spec_address_hash());
    assert(m.spec_body().subrange(16, 23) =~= be_seq(m.spec_total_outlay() as int, 7));
    assert(m.spec_body().subrange(23, 30) =~= be_seq(m.spec_fee() as int, 7));
    lemma_pow256_values();
    lemma_be_seq_val(m.spec_total_outlay() as int, 7);
    lemma_be_seq_val(m.spec_fee() as int, 7);
}

} // verus!
