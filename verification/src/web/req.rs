//! Web request shapes and their wire encodings.
use vstd::prelude::*;
use vstd::string::StringSliceAdditionalSpecFns;

use crate::json::{
    dec_bytes, json_str_bytes, opt_bool_field, opt_str_field, push_json_str, push_lit,
    push_opt_bool_field, push_opt_raw_field, push_opt_str_field, push_u32,
};

verus! {

/// An optional 16-bit numeric member.
pub open spec fn opt_u16_field(key: &str, v: Option<u16>) -> Seq<u8> {
    match v {
        Some(n) => key.spec_bytes() + dec_bytes(n as nat),
        None => Seq::empty(),
    }
}

/// Append an optional 16-bit numeric member.
fn push_opt_u16_field(out: &mut Vec<u8>, key: &str, v: Option<u16>)
    ensures
        final(out)@ =~= old(out)@ + opt_u16_field(key, v),
{
    match v {
        Some(n) => {
            push_lit(out, key);
            push_u32(out, n as u32);
            proof {
                assert((old(out)@ + key.spec_bytes()) + dec_bytes(n as nat) =~= old(out)@ + (
                key.spec_bytes() + dec_bytes(n as nat)));
            }
        },
        None => {
            proof {
                assert(out@ + Seq::<u8>::empty() =~= out@);
            }
        },
    }
}

/// `web.post`: relay an HTTP POST through the cloud connection. The
/// `async` member is spelled `nasync` here because `async` is reserved.
pub struct Post<'a> {
    pub req: &'static str,
    pub route: &'a str,
    pub name: Option<&'a str>,
    pub body: Option<&'a [u8]>,
    pub payload: Option<&'a str>,
    pub content: Option<&'a str>,
    pub seconds: Option<u16>,
    pub max: Option<u16>,
    pub verify: Option<bool>,
    pub nasync: Option<bool>,
}

impl<'a> Post<'a> {
    /// The JSON object this request serializes to.
    pub open spec fn json(self) -> Seq<u8> {
        ("{\"req\":").spec_bytes() + json_str_bytes(self.req.spec_bytes()) + (
        ",\"route\":").spec_bytes() + json_str_bytes(self.route.spec_bytes()) + opt_str_field(
            ",\"name\":",
            self.name,
        ) + (match self.body {
            Some(b) => (",\"body\":").spec_bytes() + b@,
            None => Seq::empty(),
        }) + opt_str_field(",\"payload\":", self.payload) + opt_str_field(
            ",\"content\":",
            self.content,
        ) + opt_u16_field(",\"seconds\":", self.seconds) + opt_u16_field(",\"max\":", self.max)
            + opt_bool_field(",\"verify\":", self.verify) + opt_bool_field(
            ",\"async\":",
            self.nasync,
        ) + ("}").spec_bytes()
    }

    /// Serialize the request.
    #[verifier::rlimit(50)]
    pub fn to_json(&self) -> (r: Vec<u8>)
        ensures
            r@ =~= self.json(),
    {
        let mut out: Vec<u8> = Vec::new();
        push_lit(&mut out, "{\"req\":");
        push_json_str(&mut out, self.req);
        push_lit(&mut out, ",\"route\":");
        push_json_str(&mut out, self.route);
        push_opt_str_field(&mut out, ",\"name\":", self.name);
        push_opt_raw_field(&mut out, ",\"body\":", self.body);
        push_opt_str_field(&mut out, ",\"payload\":", self.payload);
        push_opt_str_field(&mut out, ",\"content\":", self.content);
        push_opt_u16_field(&mut out, ",\"seconds\":", self.seconds);
        push_opt_u16_field(&mut out, ",\"max\":", self.max);
        push_opt_bool_field(&mut out, ",\"verify\":", self.verify);
        push_opt_bool_field(&mut out, ",\"async\":", self.nasync);
        push_lit(&mut out, "}");
        out
    }
}

} // verus!
