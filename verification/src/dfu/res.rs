//! Firmware-update response shapes the engine can represent with plain
//! values.
use vstd::prelude::*;
use vstd::string::StringSliceAdditionalSpecFns;

use crate::json::push_lit;
use crate::text::bytes_eq;

verus! {

/// The phase a background firmware download is in.
#[derive(Debug, Clone, Copy, PartialEq, Eq, Structural)]
pub enum StatusMode {
    Idle,
    Error,
    Downloading,
    Ready,
}

impl StatusMode {
    /// The mode a JSON string token parses to, if any.
    pub open spec fn spec_parse(s: Seq<u8>) -> Option<StatusMode> {
        if s == ("\"idle\"").spec_bytes() {
            Some(StatusMode::Idle)
        } else if s == ("\"error\"").spec_bytes() {
            Some(StatusMode::Error)
        } else if s == ("\"downloading\"").spec_bytes() {
            Some(StatusMode::Downloading)
        } else if s == ("\"ready\"").spec_bytes() {
            Some(StatusMode::Ready)
        } else {
            None
        }
    }

    /// Parse a JSON string token into a mode.
    pub fn parse_token(s: &[u8]) -> (r: Option<StatusMode>)
        ensures
            r == Self::spec_parse(s@),
    {
        let mut tok: Vec<u8> = Vec::new();
        push_lit(&mut tok, "\"idle\"");
        if bytes_eq(s, tok.as_slice()) {
            return Some(StatusMode::Idle);
        }
        let mut tok: Vec<u8> = Vec::new();
        push_lit(&mut tok, "\"error\"");
        if bytes_eq(s, tok.as_slice()) {
            return Some(StatusMode::Error);
        }
        let mut tok: Vec<u8> = Vec::new();
        push_lit(&mut tok, "\"downloading\"");
        if bytes_eq(s, tok.as_slice()) {
            return Some(StatusMode::Downloading);
        }
        let mut tok: Vec<u8> = Vec::new();
        push_lit(&mut tok, "\"ready\"");
        if bytes_eq(s, tok.as_slice()) {
            return Some(StatusMode::Ready);
        }
        None
    }
}

} // verus!
