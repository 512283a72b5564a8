//! Non-terrestrial-network response shapes the engine can represent with
//! plain values.
use vstd::prelude::*;
use vstd::string::StringSliceAdditionalSpecFns;

use crate::text::bytes_eq;

verus! {

/// A response payload carrying no members.
#[derive(Debug, Clone, Copy, PartialEq, Eq, Structural)]
pub struct Empty {}

impl Empty {
    /// Read an empty-object payload. Succeeds exactly on `{}`.
    pub fn parse(s: &[u8]) -> (r: Option<Empty>)
        ensures
            r is Some <==> s@ == ("{}").spec_bytes(),
    {
        let mut expected: Vec<u8> = Vec::new();
        crate::json::push_lit(&mut expected, "{}");
        if bytes_eq(s, expected.as_slice()) {
            Some(Empty {  })
        } else {
            None
        }
    }
}

/// The GPS override setting the device reports back.
#[derive(Debug, Clone, Copy, PartialEq, Eq, Structural)]
pub struct Gps {
    pub on: Option<bool>,
    pub off: Option<bool>,
}

} // verus!
