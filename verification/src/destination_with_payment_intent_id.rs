//! The destination memo with a payment intent id: type code `0x0204`.
//! Structurally the destination memo, extended with an 8-byte payment intent id
//! in its own fixed-width field.

use vstd::prelude::*;

use crate::bytes::{
    be_decode, be_encode, be_seq, be_val, clone_bytes, lemma_be_seq_len, lemma_be_seq_val,
    lemma_pow256_values, pow256, sub_vec, zero_vec, zeros,
};
use crate::destination::DestinationMemoError;
use crate::keys::ShortAddressHash;
use crate::registry::RegisteredMemoType;

verus! {

/// The 64-byte body: recipient short address hash (16 bytes), number of
/// recipients (1 byte), total outlay (7 bytes), fee (7 bytes), the
/// payment intent id (8 bytes, big-endian), then reserved zero bytes.
pub open spec fn destination_with_payment_intent_id_body(
    address_hash: Seq<u8>,
    num_recipients: u8,
    total_outlay: int,
    fee: int,
    payment_intent_id: int,
) -> Seq<u8> {
    address_hash + seq![num_recipients] + be_seq(total_outlay, 7) + be_seq(fee, 7) + be_seq(
        payment_intent_id,
        8,
    ) + zeros(25)
}

/// Body layout as in the destination memo, with the payment intent id appended.
#[derive(Debug, PartialEq, Eq)]
pub struct DestinationWithPaymentIntentIdMemo {
    address_hash: ShortAddressHash,
    num_recipients: u8,
    total_outlay: u64,
    fee: u64,
    payment_intent_id: u64,
}

impl DestinationWithPaymentIntentIdMemo {
    pub closed spec fn spec_address_hash(&self) -> Seq<u8> {
        self.address_hash@
    }

    pub closed spec fn spec_num_recipients(&self) -> u8 {
        self.num_recipients
    }

    pub closed spec fn spec_total_outlay(&self) -> u64 {
        self.total_outlay
    }

    pub closed spec fn spec_fee(&self) -> u64 {
        self.fee
    }

    pub closed spec fn spec_payment_intent_id(&self) -> u64 {
        self.payment_intent_id
    }

    /// Builds the memo for one recipient; all-or-nothing, failing exactly
    /// when a confidential field exceeds its 7-byte width (the fee is
    /// checked first). The payment intent id occupies a full 8-byte field and cannot
    /// fail.
    pub fn new(
        address_hash: ShortAddressHash,
        total_outlay: u64,
        fee: u64,
        payment_intent_id: u64,
    ) -> (r: Result<Self, DestinationMemoError>)
        requires
            address_hash.wf(),
        ensures
            (fee as int) >= pow256(7) ==> (r matches Err(e) && e
                == DestinationMemoError::FeeTooLarge),
            (fee as int) < pow256(7) && (total_outlay as int) >= pow256(7) ==> (r matches Err(e)
                && e == DestinationMemoError::TotalOutlayTooLarge),
            (fee as int) < pow256(7) && (total_outlay as int) < pow256(7) ==> (r matches Ok(m)
                && m.spec_address_hash() == address_hash@ && m.spec_num_recipients() == 1
                && m.spec_total_outlay() == total_outlay && m.spec_fee() == fee
                && m.spec_payment_intent_id() == payment_intent_id && m.spec_wf()),
    {
        proof {
            lemma_pow256_values();
        }
        if fee >= 0x100_0000_0000_0000u64 {
            Err(DestinationMemoError::FeeTooLarge)
        } else if total_outlay >= 0x100_0000_0000_0000u64 {
            Err(DestinationMemoError::TotalOutlayTooLarge)
        } else {
            Ok(DestinationWithPaymentIntentIdMemo {
                address_hash,
                num_recipients: 1,
                total_outlay,
                fee,
                payment_intent_id,
            })
        }
    }

    /// The recipient's short address hash.
    pub fn get_address_hash(&self) -> (r: &ShortAddressHash)
        ensures
            r@ == self.spec_address_hash(),
    {
        &self.address_hash
    }

    /// The total outlay recorded.
    pub fn get_total_outlay(&self) -> (r: u64)
        ensures
            r == self.spec_total_outlay(),
    {
        self.total_outlay
    }

    /// The fee recorded.
    pub fn get_fee(&self) -> (r: u64)
        ensures
            r == self.spec_fee(),
    {
        self.fee
    }

    /// The number of recipients recorded; 1 unless set otherwise.
    pub fn get_num_recipients(&self) -> (r: u8)
        ensures
            r == self.spec_num_recipients(),
    {
        self.num_recipients
    }

    /// The payment intent id recorded.
    pub fn get_payment_intent_id(&self) -> (r: u64)
        ensures
            r == self.spec_payment_intent_id(),
    {
        self.payment_intent_id
    }

    /// Replaces the recipient's short address hash, leaving every other
    /// field unchanged.
    pub fn set_address_hash(&mut self, address_hash: ShortAddressHash)
        requires
            address_hash.wf(),
        ensures
            final(self).spec_address_hash() == address_hash@,
            final(self).spec_num_recipients() == old(self).spec_num_recipients(),
            final(self).spec_total_outlay() == old(self).spec_total_outlay(),
            final(self).spec_fee() == old(self).spec_fee(),
            final(self).spec_payment_intent_id() == old(self).spec_payment_intent_id(),
            old(self).spec_wf() ==> final(self).spec_wf(),
    {
        self.address_hash = address_hash;
    }

    /// Replaces the total outlay, leaving every other field unchanged; the
    /// caller pre-validates the 7-byte bound.
    pub fn set_total_outlay(&mut self, total_outlay: u64)
        requires
            (total_outlay as int) < pow256(7),
        ensures
            final(self).spec_total_outlay() == total_outlay,
            final(self).spec_address_hash() == old(self).spec_address_hash(),
            final(self).spec_num_recipients() == old(self).spec_num_recipients(),
            final(self).spec_fee() == old(self).spec_fee(),
            final(self).spec_payment_intent_id() == old(self).spec_payment_intent_id(),
            old(self).spec_wf() ==> final(self).spec_wf(),
    {
        self.total_outlay = total_outlay;
    }

    /// Replaces the fee; all-or-nothing, failing exactly when the fee
    /// exceeds its 7-byte width, in which case nothing changes.
    pub fn set_fee(&mut self, fee: u64) -> (r: Result<(), DestinationMemoError>)
        ensures
            (fee as int) < pow256(7) ==> (r is Ok && final(self).spec_fee() == fee),
            (fee as int) >= pow256(7) ==> (r matches Err(e) && e
                == DestinationMemoError::FeeTooLarge && final(self).spec_fee() == old(
                self,
            ).spec_fee()),
            final(self).spec_address_hash() == old(self).spec_address_hash(),
            final(self).spec_num_recipients() == old(self).spec_num_recipients(),
            final(self).spec_total_outlay() == old(self).spec_total_outlay(),
            final(self).spec_payment_intent_id() == old(self).spec_payment_intent_id(),
            old(self).spec_wf() ==> final(self).spec_wf(),
    {
        proof {
            lemma_pow256_values();
        }
        if fee >= 0x100_0000_0000_0000u64 {
            Err(DestinationMemoError::FeeTooLarge)
        } else {
            self.fee = fee;
            Ok(())
        }
    }

    /// Replaces the recipient count, leaving every other field unchanged.
    pub fn set_num_recipients(&mut self, num_recipients: u8)
        ensures
            final(self).spec_num_recipients() == num_recipients,
            final(self).spec_address_hash() == old(self).spec_address_hash(),
            final(self).spec_total_outlay() == old(self).spec_total_outlay(),
            final(self).spec_fee() == old(self).spec_fee(),
            final(self).spec_payment_intent_id() == old(self).spec_payment_intent_id(),
            old(self).spec_wf() ==> final(self).spec_wf(),
    {
        self.num_recipients = num_recipients;
    }
}

impl RegisteredMemoType for DestinationWithPaymentIntentIdMemo {
    open spec fn spec_type_code() -> Seq<u8> {
        seq![2u8, 4u8]
    }

    open spec fn spec_wf(&self) -> bool {
        self.spec_address_hash().len() == 16 && (self.spec_total_outlay() as int) < pow256(7)
            && (self.spec_fee() as int) < pow256(7)
    }

    open spec fn spec_body(&self) -> Seq<u8> {
        destination_with_payment_intent_id_body(
            self.spec_address_hash(),
            self.spec_num_recipients(),
            self.spec_total_outlay() as int,
            self.spec_fee() as int,
            self.spec_payment_intent_id() as int,
        )
    }

    fn memo_type_bytes() -> (r: Vec<u8>) {
        let mut r: Vec<u8> = Vec::new();
        r.push(2u8);
        r.push(4u8);
        proof {
            assert(r@ =~= Self::spec_type_code());
        }
        r
    }

    fn to_body(&self) -> (r: Vec<u8>) {
        proof {
            lemma_pow256_values();
        }
        let mut r = clone_bytes(self.address_hash.hash_bytes());
        r.push(self.num_recipients);
        let outlay_bytes = be_encode(self.total_outlay, 7);
        r.extend_from_slice(outlay_bytes.as_slice());
        let fee_bytes = be_encode(self.fee, 7);
        r.extend_from_slice(fee_bytes.as_slice());
        let aux_bytes = be_encode(self.payment_intent_id, 8);
        r.extend_from_slice(aux_bytes.as_slice());
        let pad = zero_vec(25);
        r.extend_from_slice(pad.as_slice());
        proof {
            assert(r@ =~= self.spec_body());
        }
        r
    }

    fn from_body(body: &Vec<u8>) -> (r: Self)
        ensures
            r.spec_address_hash() == body@.subrange(0, 16),
            r.spec_num_recipients() == body@[16],
            r.spec_total_outlay() as int == be_val(body@.subrange(17, 24)),
            r.spec_fee() as int == be_val(body@.subrange(24, 31)),
            r.spec_payment_intent_id() as int == be_val(body@.subrange(31, 39)),
            r.spec_wf(),
    {
        DestinationWithPaymentIntentIdMemo {
            address_hash: ShortAddressHash::from_exact(sub_vec(body, 0, 16)),
            num_recipients: body[16],
            total_outlay: be_decode(body, 17, 7),
            fee: be_decode(body, 24, 7),
            payment_intent_id: be_decode(body, 31, 8),
        }
    }
}

/// Round trip: reading the fields back out of the body this memo encodes to
/// recovers every field exactly.
pub proof fn lemma_destination_with_payment_intent_id_round_trip(m: DestinationWithPaymentIntentIdMemo, m2: DestinationWithPaymentIntentIdMemo)
    requires
        m.spec_wf(),
        m2.spec_address_hash() == m.spec_body().subrange(0, 16),
        m2.spec_num_recipients() == m.spec_body()[16],
        m2.spec_total_outlay() as int == be_val(m.spec_body().subrange(17, 24)),
        m2.spec_fee() as int == be_val(m.spec_body().subrange(24, 31)),
        m2.spec_payment_intent_id() as int == be_val(m.spec_body().subrange(31, 39)),
    ensures
        m2.spec_address_hash() == m.spec_address_hash(),
        m2.spec_num_recipients() == m.spec_num_recipients(),
        m2.spec_total_outlay() == m.spec_total_outlay(),
        m2.spec_fee() == m.spec_fee(),
        m2.spec_payment_intent_id() == m.spec_payment_intent_id(),
{
    lemma_be_seq_len(m.spec_total_outlay() as int, 7);
    lemma_be_seq_len(m.spec_fee() as int, 7);
    lemma_be_seq_len(m.spec_payment_intent_id() as int, 8);
    assert(m.spec_body().subrange(0, 16) =~= m.spec_address_hash());
    assert(m.spec_body()[16] == m.spec_num_recipients());
    assert(m.spec_body().subrange(17, 24) =~= be_seq(m.spec_total_outlay() as int, 7));
    assert(m.spec_body().subrange(24, 31) =~= be_seq(m.spec_fee() as int, 7));
    assert(m.spec_body().subrange(31, 39) =~= be_seq(m.spec_payment_intent_id() as int, 8));
    lemma_pow256_values();
    lemma_be_seq_val(m.spec_total_outlay() as int, 7);
    lemma_be_seq_val(m.spec_fee() as int, 7);
    lemma_be_seq_val(m.spec_payment_intent_id() as int, 8);
}

} // verus!
