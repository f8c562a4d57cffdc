//! The raw memo payload: the 66-byte unit attached to a transaction output
//! after decryption, a 2-byte type code followed by a 64-byte body.

use vstd::prelude::*;

verus! {

/// A decrypted memo payload: exactly 2 type code bytes and 64 body bytes.
/// The type code is opaque until matched against the registry.
#[derive(Debug, PartialEq, Eq)]
pub struct MemoPayload {
    type_code: Vec<u8>,
    body: Vec<u8>,
}

impl MemoPayload {
    pub closed spec fn spec_type_code(&self) -> Seq<u8> {
        self.type_code@
    }

    pub closed spec fn spec_body(&self) -> Seq<u8> {
        self.body@
    }

    pub open spec fn wf(&self) -> bool {
        self.spec_type_code().len() == 2 && self.spec_body().len() == 64
    }

    pub fn new(type_code: Vec<u8>, body: Vec<u8>) -> (r: Self)
        requires
            type_code@.len() == 2,
            body@.len() == 64,
        ensures
            r.spec_type_code() == type_code@,
            r.spec_body() == body@,
            r.wf(),
    {
        MemoPayload { type_code, body }
    }

    /// The two type code bytes.
    pub fn get_memo_type(&self) -> (r: &Vec<u8>)
        ensures
            r@ == self.spec_type_code(),
    {
        &self.type_code
    }

    /// The 64 body bytes.
    pub fn get_memo_data(&self) -> (r: &Vec<u8>)
        ensures
            r@ == self.spec_body(),
    {
        &self.body
    }
}

} // verus!
