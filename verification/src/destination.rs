//! The destination memo: type code `0x0200`. A sender's own record of where
//! funds went and what fee was paid, in confidential fixed-width fields that
//! only someone able to decrypt the memo can read.

use vstd::prelude::*;

use crate::bytes::{
    be_decode, be_encode, be_seq, be_val, clone_bytes, lemma_be_seq_len, lemma_be_seq_val,
    lemma_pow256_values, pow256, sub_vec, zero_vec, zeros,
};
use crate::keys::ShortAddressHash;
use crate::registry::RegisteredMemoType;

verus! {

/// A destination-family field failed its fixed byte width; nothing was
/// written.
#[derive(Clone, Copy, Debug, PartialEq, Eq)]
pub enum DestinationMemoError {
    /// The fee does not fit its 7-byte big-endian field.
    FeeTooLarge,
    /// The total outlay does not fit its 7-byte big-endian field.
    TotalOutlayTooLarge,
}

/// The 64-byte destination body: recipient short address hash (16 bytes),
/// number of recipients (1 byte), total outlay (7 bytes, big-endian), fee
/// (7 bytes, big-endian), then reserved zero bytes.
pub open spec fn destination_body(
    address_hash: Seq<u8>,
    num_recipients: u8,
    total_outlay: int,
    fee: int,
) -> Seq<u8> {
    address_hash + seq![num_recipients] + be_seq(total_outlay, 7) + be_seq(fee, 7) + zeros(33)
}

/// Assembles the 64-byte destination body from its fields.
pub fn compute_destination_memo(
    address_hash: &ShortAddressHash,
    num_recipients: u8,
    total_outlay: u64,
    fee: u64,
) -> (r: Vec<u8>)
    requires
        address_hash.wf(),
        (total_outlay as int) < pow256(7),
        (fee as int) < pow256(7),
    ensures
        r@ == destination_body(address_hash@, num_recipients, total_outlay as int, fee as int),
        r@.len() == 64,
{
    let mut r = clone_bytes(address_hash.hash_bytes());
    r.push(num_recipients);
    let outlay_bytes = be_encode(total_outlay, 7);
    r.extend_from_slice(outlay_bytes.as_slice());
    let fee_bytes = be_encode(fee, 7);
    r.extend_from_slice(fee_bytes.as_slice());
    let pad = zero_vec(33);
    r.extend_from_slice(pad.as_slice());
    proof {
        assert(r@ =~= destination_body(
            address_hash@,
            num_recipients,
            total_outlay as int,
            fee as int,
        ));
    }
    r
}

/// Body layout: recipient short address hash, recipient count, total outlay
/// and fee, each in its fixed-width field.
#[derive(Debug, PartialEq, Eq)]
pub struct DestinationMemo {
    address_hash: ShortAddressHash,
    num_recipients: u8,
    total_outlay: u64,
    fee: u64,
}

impl DestinationMemo {
    pub closed spec fn spec_address_hash(&self) -> Seq<u8> {
        self.address_hash@
    }

    pub closed spec fn spec_num_recipients(&self) -> u8 {
        self.num_recipients
    }

    pub closed spec fn spec_total_outlay(&self) -> u64 {
        self.total_outlay
    }

    pub closed spec fn spec_fee(&self) -> u64 {
        self.fee
    }

    /// Builds a destination memo recording the outlay and fee, for one
    /// recipient; all-or-nothing, failing exactly when a field exceeds its
    /// 7-byte width (the fee is checked first).
    pub fn new(address_hash: ShortAddressHash, total_outlay: u64, fee: u64) -> (r: Result<
        Self,
        DestinationMemoError,
    >)
        requires
            address_hash.wf(),
        ensures
            (fee as int) >= pow256(7) ==> (r matches Err(e) && e
                == DestinationMemoError::FeeTooLarge),
            (fee as int) < pow256(7) && (total_outlay as int) >= pow256(7) ==> (r matches Err(e)
                && e == DestinationMemoError::TotalOutlayTooLarge),
            (fee as int) < pow256(7) && (total_outlay as int) < pow256(7) ==> (r matches Ok(m)
                && m.spec_address_hash() == address_hash@ && m.spec_num_recipients() == 1
                && m.spec_total_outlay() == total_outlay && m.spec_fee() == fee && m.spec_wf()),
    {
        proof {
            lemma_pow256_values();
        }
        if fee >= 0x100_0000_0000_0000u64 {
            Err(DestinationMemoError::FeeTooLarge)
        } else if total_outlay >= 0x100_0000_0000_0000u64 {
            Err(DestinationMemoError::TotalOutlayTooLarge)
        } else {
            Ok(DestinationMemo { address_hash, num_recipients: 1, total_outlay, fee })
        }
    }

    /// The recipient's short address hash.
    pub fn get_address_hash(&self) -> (r: &ShortAddressHash)
        ensures
            r@ == self.spec_address_hash(),
    {
        &self.address_hash
    }

    /// Replaces the recipient's short address hash, leaving every other
    /// field unchanged.
    pub fn set_address_hash(&mut self, address_hash: ShortAddressHash)
        requires
            address_hash.wf(),
        ensures
            final(self).spec_address_hash() == address_hash@,
            final(self).spec_num_recipients() == old(self).spec_num_recipients(),
            final(self).spec_total_outlay() == old(self).spec_total_outlay(),
            final(self).spec_fee() == old(self).spec_fee(),
            old(self).spec_wf() ==> final(self).spec_wf(),
    {
        self.address_hash = address_hash;
    }

    /// The total outlay recorded.
    pub fn get_total_outlay(&self) -> (r: u64)
        ensures
            r == self.spec_total_outlay(),
    {
        self.total_outlay
    }

    /// Replaces the total outlay, leaving every other field unchanged; the
    /// caller pre-validates the 7-byte bound.
    pub fn set_total_outlay(&mut self, total_outlay: u64)
        requires
            (total_outlay as int) < pow256(7),
        ensures
            final(self).spec_total_outlay() == total_outlay,
            final(self).spec_address_hash() == old(self).spec_address_hash(),
            final(self).spec_num_recipients() == old(self).spec_num_recipients(),
            final(self).spec_fee() == old(self).spec_fee(),
            old(self).spec_wf() ==> final(self).spec_wf(),
    {
        self.total_outlay = total_outlay;
    }

    /// The fee recorded.
    pub fn get_fee(&self) -> (r: u64)
        ensures
            r == self.spec_fee(),
    {
        self.fee
    }

    /// Replaces the fee; all-or-nothing, failing exactly when the fee
    /// exceeds its 7-byte width, in which case nothing changes.
    pub fn set_fee(&mut self, fee: u64) -> (r: Result<(), DestinationMemoError>)
        ensures
            (fee as int) < pow256(7) ==> (r is Ok && final(self).spec_fee() == fee),
            (fee as int) >= pow256(7) ==> (r matches Err(e) && e
                == DestinationMemoError::FeeTooLarge && final(self).spec_fee() == old(
                self,
            ).spec_fee()),
            final(self).spec_address_hash() == old(self).spec_address_hash(),
            final(self).spec_num_recipients() == old(self).spec_num_recipients(),
            final(self).spec_total_outlay() == old(self).spec_total_outlay(),
            old(self).spec_wf() ==> final(self).spec_wf(),
    {
        proof {
            lemma_pow256_values();
        }
        if fee >= 0x100_0000_0000_0000u64 {
            Err(DestinationMemoError::FeeTooLarge)
        } else {
            self.fee = fee;
            Ok(())
        }
    }

    /// The number of recipients recorded; 1 unless set otherwise.
    pub fn get_num_recipients(&self) -> (r: u8)
        ensures
            r == self.spec_num_recipients(),
    {
        self.num_recipients
    }

    /// Replaces the recipient count, leaving every other field unchanged.
    pub fn set_num_recipients(&mut self, num_recipients: u8)
        ensures
            final(self).spec_num_recipients() == num_recipients,
            final(self).spec_address_hash() == old(self).spec_address_hash(),
            final(self).spec_total_outlay() == old(self).spec_total_outlay(),
            final(self).spec_fee() == old(self).spec_fee(),
            old(self).spec_wf() ==> final(self).spec_wf(),
    {
        self.num_recipients = num_recipients;
    }
}

impl RegisteredMemoType for DestinationMemo {
    open spec fn spec_type_code() -> Seq<u8> {
        seq![2u8, 0u8]
    }

    open spec fn spec_wf(&self) -> bool {
        self.spec_address_hash().len() == 16 && (self.spec_total_outlay() as int) < pow256(7)
            && (self.spec_fee() as int) < pow256(7)
    }

    open spec fn spec_body(&self) -> Seq<u8> {
        destination_body(
            self.spec_address_hash(),
            self.spec_num_recipients(),
            self.spec_total_outlay() as int,
            self.spec_fee() as int,
        )
    }

    fn memo_type_bytes() -> (r: Vec<u8>) {
        let mut r: Vec<u8> = Vec::new();
        r.push(2u8);
        r.push(0u8);
        proof {
            assert(r@ =~= Self::spec_type_code());
        }
        r
    }

    fn to_body(&self) -> (r: Vec<u8>) {
        compute_destination_memo(&self.address_hash, self.num_recipients, self.total_outlay, self.fee)
    }

    fn from_body(body: &Vec<u8>) -> (r: Self)
        ensures
            r.spec_address_hash() == body@.subrange(0, 16),
            r.spec_num_recipients() == body@[16],
            r.spec_total_outlay() as int == be_val(body@.subrange(17, 24)),
            r.spec_fee() as int == be_val(body@.subrange(24, 31)),
            r.spec_wf(),
    {
        DestinationMemo {
            address_hash: ShortAddressHash::from_exact(sub_vec(body, 0, 16)),
            num_recipients: body[16],
            total_outlay: be_decode(body, 17, 7),
            fee: be_decode(body, 24, 7),
        }
    }
}

/// Round trip: reading the fields back out of the body a destination memo
/// encodes to recovers hash, recipient count, total outlay and fee exactly.
pub proof fn lemma_destination_round_trip(m: DestinationMemo, m2: DestinationMemo)
    requires
        m.spec_wf(),
        m2.spec_address_hash() == m.spec_body().subrange(0, 16),
        m2.spec_num_recipients() == m.spec_body()[16],
        m2.spec_total_outlay() as int == be_val(m.spec_body().subrange(17, 24)),
        m2.spec_fee() as int == be_val(m.spec_body().subrange(24, 31)),
    ensures
        m2.spec_address_hash() == m.spec_address_hash(),
        m2.spec_num_recipients() == m.spec_num_recipients(),
        m2.spec_total_outlay() == m.spec_total_outlay(),
        m2.spec_fee() == m.spec_fee(),
{
    lemma_be_seq_len(m.spec_total_outlay() as int, 7);
    lemma_be_seq_len(m.spec_fee() as int, 7);
    assert(m.spec_body().subrange(0, 16) =~= m.spec_address_hash());
    assert(m.spec_body()[16] == m.spec_num_recipients());
    assert(m.spec_body().subrange(17, 24) =~= be_seq(m.spec_total_outlay() as int, 7));
    assert(m.spec_body().subrange(24, 31) =~= be_seq(m.spec_fee() as int, 7));
    lemma_be_seq_val(m.spec_total_outlay() as int, 7);
    lemma_be_seq_val(m.spec_fee() as int, 7);
}

} // verus!
