//! The unused memo: type code `0x0000`, carrying no data at all. It completes
//! the registry so that an empty memo still classifies.

use vstd::prelude::*;

use crate::bytes::{zero_vec, zeros};
use crate::registry::RegisteredMemoType;

verus! {

/// A memo that intentionally says nothing; its body is 64 zero bytes.
#[derive(Clone, Copy, Debug, PartialEq, Eq)]
pub struct UnusedMemo;

impl RegisteredMemoType for UnusedMemo {
    open spec fn spec_type_code() -> Seq<u8> {
        seq![0u8, 0u8]
    }

    open spec fn spec_wf(&self) -> bool {
        true
    }

    open spec fn spec_body(&self) -> Seq<u8> {
        zeros(64)
    }

    fn memo_type_bytes() -> (r: Vec<u8>) {
        let mut r: Vec<u8> = Vec::new();
        r.push(0u8);
        r.push(0u8);
        proof {
            assert(r@ =~= Self::spec_type_code());
        }
        r
    }

    fn to_body(&self) -> (r: Vec<u8>) {
        let r = zero_vec(64);
        proof {
            assert(r@ =~= self.spec_body());
        }
        r
    }

    fn from_body(body: &Vec<u8>) -> (r: Self)
        ensures
            r.spec_wf(),
    {
        UnusedMemo
    }
}

} // verus!
