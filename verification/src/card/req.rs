//! Card request shapes and their wire encodings.
use vstd::prelude::*;
use vstd::string::StringSliceAdditionalSpecFns;

use crate::json::{
    json_str_bytes, opt_bool_field, opt_i32_field, opt_str_field, opt_u32_field, push_json_str,
    push_lit, push_opt_bool_field, push_opt_i32_field, push_opt_str_field, push_opt_u32_field,
};
use crate::text::bytes_eq;

verus! {

/// `card.transport`: select the transport method.
pub struct Transport<'a> {
    pub req: &'static str,
    pub method: &'a str,
    pub allow: Option<bool>,
    pub umin: Option<bool>,
}

impl<'a> Transport<'a> {
    /// The JSON object this request serializes to.
    pub open spec fn json(self) -> Seq<u8> {
        ("{\"req\":").spec_bytes() + json_str_bytes(self.req.spec_bytes()) + (
        ",\"method\":").spec_bytes() + json_str_bytes(self.method.spec_bytes()) + opt_bool_field(
            ",\"allow\":",
            self.allow,
        ) + opt_bool_field(",\"umin\":", self.umin) + ("}").spec_bytes()
    }

    /// Serialize the request.
    pub fn to_json(&self) -> (r: Vec<u8>)
        ensures
            r@ =~= self.json(),
    {
        let mut out: Vec<u8> = Vec::new();
        push_lit(&mut out, "{\"req\":");
        push_json_str(&mut out, self.req);
        push_lit(&mut out, ",\"method\":");
        push_json_str(&mut out, self.method);
        push_opt_bool_field(&mut out, ",\"allow\":", self.allow);
        push_opt_bool_field(&mut out, ",\"umin\":", self.umin);
        push_lit(&mut out, "}");
        out
    }
}

/// `card.wireless`: query or set the wireless configuration.
pub struct Wireless<'a> {
    pub req: &'static str,
    pub mode: Option<&'a str>,
    pub apn: Option<&'a str>,
    pub method: Option<&'a str>,
    pub hours: Option<u32>,
}

impl<'a> Wireless<'a> {
    /// The JSON object this request serializes to.
    pub open spec fn json(self) -> Seq<u8> {
        ("{\"req\":").spec_bytes() + json_str_bytes(self.req.spec_bytes()) + opt_str_field(
            ",\"mode\":",
            self.mode,
        ) + opt_str_field(",\"apn\":", self.apn) + opt_str_field(",\"method\":", self.method)
            + opt_u32_field(",\"hours\":", self.hours) + ("}").spec_bytes()
    }

    /// Serialize the request.
    pub fn to_json(&self) -> (r: Vec<u8>)
        ensures
            r@ =~= self.json(),
    {
        let mut out: Vec<u8> = Vec::new();
        push_lit(&mut out, "{\"req\":");
        push_json_str(&mut out, self.req);
        push_opt_str_field(&mut out, ",\"mode\":", self.mode);
        push_opt_str_field(&mut out, ",\"apn\":", self.apn);
        push_opt_str_field(&mut out, ",\"method\":", self.method);
        push_opt_u32_field(&mut out, ",\"hours\":", self.hours);
        push_lit(&mut out, "}");
        out
    }
}

/// `card.location.track`: store location data periodically.
pub struct LocationTrack<'a> {
    pub req: &'static str,
    pub start: Option<bool>,
    pub heartbeat: Option<bool>,
    pub sync: Option<bool>,
    pub stop: Option<bool>,
    pub hours: Option<i32>,
    pub file: Option<&'a str>,
}

impl<'a> LocationTrack<'a> {
    /// The JSON object this request serializes to.
    pub open spec fn json(self) -> Seq<u8> {
        ("{\"req\":").spec_bytes() + json_str_bytes(self.req.spec_bytes()) + opt_bool_field(
            ",\"start\":",
            self.start,
        ) + opt_bool_field(",\"heartbeat\":", self.heartbeat) + opt_bool_field(
            ",\"sync\":",
            self.sync,
        ) + opt_bool_field(",\"stop\":", self.stop) + opt_i32_field(",\"hours\":", self.hours)
            + opt_str_field(",\"file\":", self.file) + ("}").spec_bytes()
    }

    /// Serialize the request.
    pub fn to_json(&self) -> (r: Vec<u8>)
        ensures
            r@ =~= self.json(),
    {
        let mut out: Vec<u8> = Vec::new();
        push_lit(&mut out, "{\"req\":");
        push_json_str(&mut out, self.req);
        push_opt_bool_field(&mut out, ",\"start\":", self.start);
        push_opt_bool_field(&mut out, ",\"heartbeat\":", self.heartbeat);
        push_opt_bool_field(&mut out, ",\"sync\":", self.sync);
        push_opt_bool_field(&mut out, ",\"stop\":", self.stop);
        push_opt_i32_field(&mut out, ",\"hours\":", self.hours);
        push_opt_str_field(&mut out, ",\"file\":", self.file);
        push_lit(&mut out, "}");
        out
    }
}

/// The firmware a `card.dfu` request concerns.
#[derive(Debug, Clone, Copy, PartialEq, Eq, Structural)]
pub enum DFUName {
    Esp32,
    Stm32,
    Stm32Bi,
    McuBoot,
    Reset,
}

impl DFUName {
    /// The JSON string token the name serializes to.
    pub open spec fn json_token(self) -> Seq<u8> {
        match self {
            DFUName::Esp32 => ("\"esp32\"").spec_bytes(),
            DFUName::Stm32 => ("\"stm32\"").spec_bytes(),
            DFUName::Stm32Bi => ("\"stm32-bi\"").spec_bytes(),
            DFUName::McuBoot => ("\"mcuboot\"").spec_bytes(),
            DFUName::Reset => ("\"-\"").spec_bytes(),
        }
    }

    /// Append the name's JSON string token.
    pub fn push_token(&self, out: &mut Vec<u8>)
        ensures
            final(out)@ =~= old(out)@ + self.json_token(),
    {
        match self {
            DFUName::Esp32 => push_lit(out, "\"esp32\""),
            DFUName::Stm32 => push_lit(out, "\"stm32\""),
            DFUName::Stm32Bi => push_lit(out, "\"stm32-bi\""),
            DFUName::McuBoot => push_lit(out, "\"mcuboot\""),
            DFUName::Reset => push_lit(out, "\"-\""),
        }
    }

    /// The name a JSON string token parses back to, if any.
    pub open spec fn spec_parse(s: Seq<u8>) -> Option<DFUName> {
        if s == ("\"esp32\"").spec_bytes() {
            Some(DFUName::Esp32)
        } else if s == ("\"stm32\"").spec_bytes() {
            Some(DFUName::Stm32)
        } else if s == ("\"stm32-bi\"").spec_bytes() {
            Some(DFUName::Stm32Bi)
        } else if s == ("\"mcuboot\"").spec_bytes() {
            Some(DFUName::McuBoot)
        } else if s == ("\"-\"").spec_bytes() {
            Some(DFUName::Reset)
        } else {
            None
        }
    }

    /// Parse a JSON string token back into a name.
    pub fn parse_token(s: &[u8]) -> (r: Option<DFUName>)
        ensures
            r == Self::spec_parse(s@),
    {
        let mut tok: Vec<u8> = Vec::new();
        push_lit(&mut tok, "\"esp32\"");
        if bytes_eq(s, tok.as_slice()) {
            return Some(DFUName::Esp32);
        }
        let mut tok: Vec<u8> = Vec::new();
        push_lit(&mut tok, "\"stm32\"");
        if bytes_eq(s, tok.as_slice()) {
            return Some(DFUName::Stm32);
        }
        let mut tok: Vec<u8> = Vec::new();
        push_lit(&mut tok, "\"stm32-bi\"");
        if bytes_eq(s, tok.as_slice()) {
            return Some(DFUName::Stm32Bi);
        }
        let mut tok: Vec<u8> = Vec::new();
        push_lit(&mut tok, "\"mcuboot\"");
        if bytes_eq(s, tok.as_slice()) {
            return Some(DFUName::McuBoot);
        }
        let mut tok: Vec<u8> = Vec::new();
        push_lit(&mut tok, "\"-\"");
        if bytes_eq(s, tok.as_slice()) {
            return Some(DFUName::Reset);
        }
        None
    }
}

/// `card.dfu`: configure the outboard firmware update feature.
pub struct DFU {
    pub req: &'static str,
    pub name: Option<DFUName>,
    pub on: Option<bool>,
    pub off: Option<bool>,
    pub stop: Option<bool>,
    pub start: Option<bool>,
}

impl DFU {
    /// The request [`DFU::new`] builds: `on`/`off` and `stop`/`start` are
    /// exclusive pairs, so at most one member of each pair is sent.
    pub open spec fn spec_new(name: Option<DFUName>, on: Option<bool>, stop: Option<bool>) -> DFU {
        DFU {
            req: "card.dfu",
            name: name,
            on: match on {
                Some(true) => Some(true),
                _ => None,
            },
            off: match on {
                Some(false) => Some(true),
                _ => None,
            },
            stop: match stop {
                Some(true) => Some(true),
                _ => None,
            },
            start: match stop {
                Some(false) => Some(true),
                _ => None,
            },
        }
    }

    /// Build a `card.dfu` request. When `on` is true the request carries
    /// `on`, when false it carries `off`, and never both; `stop` maps to
    /// `stop`/`start` the same way.
    pub fn new(name: Option<DFUName>, on: Option<bool>, stop: Option<bool>) -> (r: DFU)
        ensures
            r == Self::spec_new(name, on, stop),
    {
        DFU {
            req: "card.dfu",
            name,
            on: match on {
                Some(true) => Some(true),
                _ => None,
            },
            off: match on {
                Some(false) => Some(true),
                _ => None,
            },
            stop: match stop {
                Some(true) => Some(true),
                _ => None,
            },
            start: match stop {
                Some(false) => Some(true),
                _ => None,
            },
        }
    }

    /// The JSON object this request serializes to.
    pub open spec fn json(self) -> Seq<u8> {
        ("{\"req\":").spec_bytes() + json_str_bytes(self.req.spec_bytes()) + (match self.name {
            Some(n) => (",\"name\":").spec_bytes() + n.json_token(),
            None => Seq::empty(),
        }) + opt_bool_field(",\"on\":", self.on) + opt_bool_field(",\"off\":", self.off)
            + opt_bool_field(",\"stop\":", self.stop) + opt_bool_field(",\"start\":", self.start)
            + ("}").spec_bytes()
    }

    /// Serialize the request.
    pub fn to_json(&self) -> (r: Vec<u8>)
        ensures
            r@ =~= self.json(),
    {
        let mut out: Vec<u8> = Vec::new();
        push_lit(&mut out, "{\"req\":");
        push_json_str(&mut out, self.req);
        match self.name {
            Some(n) => {
                push_lit(&mut out, ",\"name\":");
                n.push_token(&mut out);
            },
            None => {},
        }
        push_opt_bool_field(&mut out, ",\"on\":", self.on);
        push_opt_bool_field(&mut out, ",\"off\":", self.off);
        push_opt_bool_field(&mut out, ",\"stop\":", self.stop);
        push_opt_bool_field(&mut out, ",\"start\":", self.start);
        push_lit(&mut out, "}");
        out
    }
}

} // verus!
