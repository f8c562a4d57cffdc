//! The burn redemption memo: type code `0x0001`. Its 64 bytes are opaque at
//! this layer; interpreting them is a higher-level concern.

use vstd::prelude::*;

use crate::bytes::clone_bytes;
use crate::registry::RegisteredMemoType;

verus! {

/// A memo accompanying a burn of funds, carrying 64 uninterpreted bytes.
#[derive(Debug, PartialEq, Eq)]
pub struct BurnRedemptionMemo {
    memo_data: Vec<u8>,
}

impl View for BurnRedemptionMemo {
    type V = Seq<u8>;

    closed spec fn view(&self) -> Seq<u8> {
        self.memo_data@
    }
}

impl BurnRedemptionMemo {
    /// Wraps 64 payload bytes as a burn redemption memo.
    pub fn new(memo_data: Vec<u8>) -> (r: Self)
        requires
            memo_data@.len() == 64,
        ensures
            r@ == memo_data@,
            r.spec_wf(),
    {
        BurnRedemptionMemo { memo_data }
    }

    /// The 64 payload bytes.
    pub fn memo_data(&self) -> (r: &Vec<u8>)
        ensures
            r@ == self@,
    {
        &self.memo_data
    }
}

impl RegisteredMemoType for BurnRedemptionMemo {
    open spec fn spec_type_code() -> Seq<u8> {
        seq![0u8, 1u8]
    }

    open spec fn spec_wf(&self) -> bool {
        self@.len() == 64
    }

    open spec fn spec_body(&self) -> Seq<u8> {
        self@
    }

    fn memo_type_bytes() -> (r: Vec<u8>) {
        let mut r: Vec<u8> = Vec::new();
        r.push(0u8);
        r.push(1u8);
        proof {
            assert(r@ =~= Self::spec_type_code());
        }
        r
    }

    fn to_body(&self) -> (r: Vec<u8>) {
        clone_bytes(&self.memo_data)
    }

    fn from_body(body: &Vec<u8>) -> (r: Self)
        ensures
            r@ == body@,
            r.spec_wf(),
    {
        BurnRedemptionMemo { memo_data: clone_bytes(body) }
    }
}

} // verus!
