//! Hub request shapes and their wire encodings.
use vstd::prelude::*;
use vstd::string::StringSliceAdditionalSpecFns;

use crate::json::{
    bool_bytes, json_str_bytes, opt_bool_field, opt_str_field, opt_u32_field, push_bool, push_json_str,
    push_lit, push_opt_bool_field, push_opt_str_field, push_opt_u32_field,
};

verus! {

/// `hub.sync`: manually initiate a sync.
pub struct HubSync {
    pub req: &'static str,
    pub allow: Option<bool>,
}

impl HubSync {
    /// The JSON object this request serializes to.
    pub open spec fn json(self) -> Seq<u8> {
        ("{\"req\":").spec_bytes() + json_str_bytes(self.req.spec_bytes()) + opt_bool_field(
            ",\"allow\":",
            self.allow,
        ) + ("}").spec_bytes()
    }

    /// Serialize the request.
    pub fn to_json(&self) -> (r: Vec<u8>)
        ensures
            r@ =~= self.json(),
    {
        let mut out: Vec<u8> = Vec::new();
        push_lit(&mut out, "{\"req\":");
        push_json_str(&mut out, self.req);
        push_opt_bool_field(&mut out, ",\"allow\":", self.allow);
        push_lit(&mut out, "}");
        out
    }
}

/// The hub connection mode.
#[derive(Debug, Clone, Copy, PartialEq, Eq, Structural)]
pub enum HubMode {
    Periodic,
    Continuous,
    Minimum,
    Off,
    DFU,
}

impl HubMode {
    /// The JSON string token the mode serializes to.
    pub open spec fn json_token(self) -> Seq<u8> {
        match self {
            HubMode::Periodic => ("\"periodic\"").spec_bytes(),
            HubMode::Continuous => ("\"continuous\"").spec_bytes(),
            HubMode::Minimum => ("\"minimum\"").spec_bytes(),
            HubMode::Off => ("\"off\"").spec_bytes(),
            HubMode::DFU => ("\"dfu\"").spec_bytes(),
        }
    }

    /// Append the mode's JSON string token.
    pub fn push_token(&self, out: &mut Vec<u8>)
        ensures
            final(out)@ =~= old(out)@ + self.json_token(),
    {
        match self {
            HubMode::Periodic => push_lit(out, "\"periodic\""),
            HubMode::Continuous => push_lit(out, "\"continuous\""),
            HubMode::Minimum => push_lit(out, "\"minimum\""),
            HubMode::Off => push_lit(out, "\"off\""),
            HubMode::DFU => push_lit(out, "\"dfu\""),
        }
    }
}

/// `hub.set`: the primary method for controlling the hub connection.
pub struct HubSet<'a> {
    pub req: &'static str,
    pub product: Option<&'a str>,
    pub host: Option<&'a str>,
    pub mode: Option<HubMode>,
    pub sn: Option<&'a str>,
    pub outbound: Option<u32>,
    pub duration: Option<u32>,
    pub voutbound: Option<&'a str>,
    pub inbound: Option<u32>,
    pub vinbound: Option<&'a str>,
    pub align: Option<bool>,
    pub sync: Option<bool>,
}

impl<'a> HubSet<'a> {
    /// The JSON object this request serializes to. The `product` member is
    /// always present, `null` when unset; every other optional member is
    /// omitted when unset.
    pub open spec fn json(self) -> Seq<u8> {
        ("{\"req\":").spec_bytes() + json_str_bytes(self.req.spec_bytes()) + (
        ",\"product\":").spec_bytes() + (match self.product {
            Some(p) => json_str_bytes(p.spec_bytes()),
            None => ("null").spec_bytes(),
        }) + opt_str_field(",\"host\":", self.host) + (match self.mode {
            Some(m) => (",\"mode\":").spec_bytes() + m.json_token(),
            None => Seq::empty(),
        }) + opt_str_field(",\"sn\":", self.sn) + opt_u32_field(",\"outbound\":", self.outbound)
            + opt_u32_field(",\"duration\":", self.duration) + opt_str_field(
            ",\"voutbound\":",
            self.voutbound,
        ) + opt_u32_field(",\"inbound\":", self.inbound) + opt_str_field(
            ",\"vinbound\":",
            self.vinbound,
        ) + opt_bool_field(",\"align\":", self.align) + opt_bool_field(",\"sync\":", self.sync) + (
        "}").spec_bytes()
    }

    /// Serialize the request.
    #[verifier::rlimit(50)]
    pub fn to_json(&self) -> (r: Vec<u8>)
        ensures
            r@ =~= self.json(),
    {
        let mut out: Vec<u8> = Vec::new();
        push_lit(&mut out, "{\"req\":");
        push_json_str(&mut out, self.req);
        push_lit(&mut out, ",\"product\":");
        match self.product {
            Some(p) => push_json_str(&mut out, p),
            None => push_lit(&mut out, "null"),
        }
        push_opt_str_field(&mut out, ",\"host\":", self.host);
        match self.mode {
            Some(m) => {
                push_lit(&mut out, ",\"mode\":");
                m.push_token(&mut out);
            },
            None => {},
        }
        push_opt_str_field(&mut out, ",\"sn\":", self.sn);
        push_opt_u32_field(&mut out, ",\"outbound\":", self.outbound);
        push_opt_u32_field(&mut out, ",\"duration\":", self.duration);
        push_opt_str_field(&mut out, ",\"voutbound\":", self.voutbound);
        push_opt_u32_field(&mut out, ",\"inbound\":", self.inbound);
        push_opt_str_field(&mut out, ",\"vinbound\":", self.vinbound);
        push_opt_bool_field(&mut out, ",\"align\":", self.align);
        push_opt_bool_field(&mut out, ",\"sync\":", self.sync);
        push_lit(&mut out, "}");
        out
    }
}

/// `hub.log`: a device-health log message.
pub struct HubLog<'a> {
    pub req: &'static str,
    pub text: &'a str,
    pub alert: bool,
    pub sync: bool,
}

impl<'a> HubLog<'a> {
    /// The JSON object this request serializes to.
    pub open spec fn json(self) -> Seq<u8> {
        ("{\"req\":").spec_bytes() + json_str_bytes(self.req.spec_bytes()) + (
        ",\"text\":").spec_bytes() + json_str_bytes(self.text.spec_bytes()) + (
        ",\"alert\":").spec_bytes() + bool_bytes(self.alert) + (",\"sync\":").spec_bytes()
            + bool_bytes(self.sync) + ("}").spec_bytes()
    }

    /// Serialize the request.
    pub fn to_json(&self) -> (r: Vec<u8>)
        ensures
            r@ =~= self.json(),
    {
        let mut out: Vec<u8> = Vec::new();
        push_lit(&mut out, "{\"req\":");
        push_json_str(&mut out, self.req);
        push_lit(&mut out, ",\"text\":");
        push_json_str(&mut out, self.text);
        push_lit(&mut out, ",\"alert\":");
        push_bool(&mut out, self.alert);
        push_lit(&mut out, ",\"sync\":");
        push_bool(&mut out, self.sync);
        push_lit(&mut out, "}");
        out
    }
}

} // verus!
