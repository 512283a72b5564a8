//! Non-terrestrial-network request shapes and their wire encodings.
use vstd::prelude::*;
use vstd::string::StringSliceAdditionalSpecFns;

use crate::json::{json_str_bytes, opt_bool_field, push_json_str, push_lit, push_opt_bool_field};

verus! {

/// `ntn.gps`: choose whose GPS position the satellite modem uses.
pub struct Gps {
    pub req: &'static str,
    pub on: Option<bool>,
    pub off: Option<bool>,
}

impl Gps {
    /// The JSON object this request serializes to.
    pub open spec fn json(self) -> Seq<u8> {
        ("{\"req\":").spec_bytes() + json_str_bytes(self.req.spec_bytes()) + opt_bool_field(
            ",\"on\":",
            self.on,
        ) + opt_bool_field(",\"off\":", self.off) + ("}").spec_bytes()
    }

    /// Serialize the request.
    pub fn to_json(&self) -> (r: Vec<u8>)
        ensures
            r@ =~= self.json(),
    {
        let mut out: Vec<u8> = Vec::new();
        push_lit(&mut out, "{\"req\":");
        push_json_str(&mut out, self.req);
        push_opt_bool_field(&mut out, ",\"on\":", self.on);
        push_opt_bool_field(&mut out, ",\"off\":", self.off);
        push_lit(&mut out, "}");
        out
    }
}

} // verus!
