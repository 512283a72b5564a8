//! Firmware-update request shapes and their wire encodings.
use vstd::prelude::*;
use vstd::string::StringSliceAdditionalSpecFns;

use crate::json::{
    dec_bytes, json_str_bytes, opt_bool_field, opt_str_field, opt_u32_field, opt_usize_field,
    push_json_str, push_lit, push_opt_bool_field, push_opt_str_field, push_opt_u32_field,
    push_opt_usize_field, push_u32, push_usize,
};

verus! {

/// `dfu.get`: retrieve a piece of the downloaded firmware image.
pub struct Get {
    pub req: &'static str,
    pub length: usize,
    pub offset: Option<usize>,
}

impl Get {
    /// The JSON object this request serializes to.
    pub open spec fn json(self) -> Seq<u8> {
        ("{\"req\":").spec_bytes() + json_str_bytes(self.req.spec_bytes()) + (
        ",\"length\":").spec_bytes() + dec_bytes(self.length as nat) + opt_usize_field(
            ",\"offset\":",
            self.offset,
        ) + ("}").spec_bytes()
    }

    /// Serialize the request.
    pub fn to_json(&self) -> (r: Vec<u8>)
        ensures
            r@ =~= self.json(),
    {
        let mut out: Vec<u8> = Vec::new();
        push_lit(&mut out, "{\"req\":");
        push_json_str(&mut out, self.req);
        push_lit(&mut out, ",\"length\":");
        push_usize(&mut out, self.length);
        push_opt_usize_field(&mut out, ",\"offset\":", self.offset);
        push_lit(&mut out, "}");
        out
    }
}

/// Whose firmware a `dfu.status` request concerns: the host's or the
/// device's own.
#[derive(Debug, Clone, Copy, PartialEq, Eq, Structural)]
pub enum StatusName {
    User,
    Card,
}

impl StatusName {
    /// The JSON string token the name serializes to.
    pub open spec fn json_token(self) -> Seq<u8> {
        match self {
            StatusName::User => ("\"user\"").spec_bytes(),
            StatusName::Card => ("\"card\"").spec_bytes(),
        }
    }

    /// Append the name's JSON string token.
    pub fn push_token(&self, out: &mut Vec<u8>)
        ensures
            final(out)@ =~= old(out)@ + self.json_token(),
    {
        match self {
            StatusName::User => push_lit(out, "\"user\""),
            StatusName::Card => push_lit(out, "\"card\""),
        }
    }

    /// Serialize the name alone, as its JSON string token.
    pub fn to_json(&self) -> (r: Vec<u8>)
        ensures
            r@ =~= self.json_token(),
    {
        let mut out: Vec<u8> = Vec::new();
        self.push_token(&mut out);
        out
    }
}

/// A firmware version description, serialized by the host and passed to
/// `dfu.status` as the `version` string.
pub struct Version<'a> {
    pub org: Option<&'a str>,
    pub product: Option<&'a str>,
    pub description: Option<&'a str>,
    pub firmware: Option<&'a str>,
    pub version: &'a str,
    pub ver_major: u32,
    pub ver_minor: u32,
    pub ver_patch: u32,
    pub ver_build: Option<u32>,
    pub built: Option<&'a str>,
    pub builder: Option<&'a str>,
}

impl<'a> Version<'a> {
    /// All members with leading separators; the mandatory `version` member
    /// guarantees this is never empty.
    pub open spec fn members(self) -> Seq<u8> {
        opt_str_field(",\"org\":", self.org) + opt_str_field(",\"product\":", self.product)
            + opt_str_field(",\"description\":", self.description) + opt_str_field(
            ",\"firmware\":",
            self.firmware,
        ) + (",\"version\":").spec_bytes() + json_str_bytes(self.version.spec_bytes()) + (
        ",\"ver_major\":").spec_bytes() + dec_bytes(self.ver_major as nat) + (
        ",\"ver_minor\":").spec_bytes() + dec_bytes(self.ver_minor as nat) + (
        ",\"ver_patch\":").spec_bytes() + dec_bytes(self.ver_patch as nat) + opt_u32_field(
            ",\"ver_build\":",
            self.ver_build,
        ) + opt_str_field(",\"built\":", self.built) + opt_str_field(",\"builder\":", self.builder)
    }

    /// The JSON object this value serializes to: the members, with the
    /// first one's separator replaced by the opening brace.
    pub open spec fn json(self) -> Seq<u8> {
        ("{").spec_bytes() + self.members().skip(1) + ("}").spec_bytes()
    }

    /// Serialize the value.
    #[verifier::rlimit(50)]
    pub fn to_json(&self) -> (r: Vec<u8>)
        ensures
            r@ =~= self.json(),
    {
        let mut members: Vec<u8> = Vec::new();
        push_opt_str_field(&mut members, ",\"org\":", self.org);
        push_opt_str_field(&mut members, ",\"product\":", self.product);
        push_opt_str_field(&mut members, ",\"description\":", self.description);
        push_opt_str_field(&mut members, ",\"firmware\":", self.firmware);
        push_lit(&mut members, ",\"version\":");
        push_json_str(&mut members, self.version);
        push_lit(&mut members, ",\"ver_major\":");
        push_u32(&mut members, self.ver_major);
        push_lit(&mut members, ",\"ver_minor\":");
        push_u32(&mut members, self.ver_minor);
        push_lit(&mut members, ",\"ver_patch\":");
        push_u32(&mut members, self.ver_patch);
        push_opt_u32_field(&mut members, ",\"ver_build\":", self.ver_build);
        push_opt_str_field(&mut members, ",\"built\":", self.built);
        push_opt_str_field(&mut members, ",\"builder\":", self.builder);
        proof {
            assert(members@ == self.members());
            assert(members@.len() >= 1);
        }
        let mut out: Vec<u8> = Vec::new();
        push_lit(&mut out, "{");
        let (_, rest) = members.as_slice().split_at(1);
        out.extend_from_slice(rest);
        push_lit(&mut out, "}");
        proof {
            assert(out@ =~= self.json());
        }
        out
    }
}

/// `dfu.status`: get or set the background download status.
pub struct Status<'a> {
    pub req: &'static str,
    pub name: Option<StatusName>,
    pub stop: Option<bool>,
    pub status: Option<&'a str>,
    pub version: Option<&'a str>,
    pub vvalue: Option<&'a str>,
    pub on: Option<bool>,
    pub off: Option<bool>,
    pub err: Option<&'a str>,
}

impl<'a> Status<'a> {
    /// The request [`Status::new`] builds: the `on`/`off` pair is
    /// exclusive, so at most one of the two is sent.
    pub open spec fn spec_new(
        name: Option<StatusName>,
        stop: Option<bool>,
        status: Option<&'a str>,
        version: Option<&'a str>,
        vvalue: Option<&'a str>,
        on: Option<bool>,
        err: Option<&'a str>,
    ) -> Status<'a> {
        Status {
            req: "dfu.status",
            name: name,
            stop: stop,
            status: status,
            version: version,
            vvalue: vvalue,
            on: match on {
                Some(true) => Some(true),
                _ => None,
            },
            off: match on {
                Some(false) => Some(true),
                _ => None,
            },
            err: err,
        }
    }

    /// Build a `dfu.status` request. When `on` is true the request carries
    /// `on`, when false it carries `off`, and never both.
    pub fn new(
        name: Option<StatusName>,
        stop: Option<bool>,
        status: Option<&'a str>,
        version: Option<&'a str>,
        vvalue: Option<&'a str>,
        on: Option<bool>,
        err: Option<&'a str>,
    ) -> (r: Status<'a>)
        ensures
            r == Self::spec_new(name, stop, status, version, vvalue, on, err),
    {
        Status {
            req: "dfu.status",
            name,
            stop,
            status,
            version,
            vvalue,
            on: match on {
                Some(true) => Some(true),
                _ => None,
            },
            off: match on {
                Some(false) => Some(true),
                _ => None,
            },
            err,
        }
    }

    /// The JSON object this request serializes to.
    pub open spec fn json(self) -> Seq<u8> {
        ("{\"req\":").spec_bytes() + json_str_bytes(self.req.spec_bytes()) + (match self.name {
            Some(n) => (",\"name\":").spec_bytes() + n.json_token(),
            None => Seq::empty(),
        }) + opt_bool_field(",\"stop\":", self.stop) + opt_str_field(",\"status\":", self.status)
            + opt_str_field(",\"version\":", self.version) + opt_str_field(
            ",\"vvalue\":",
            self.vvalue,
        ) + opt_bool_field(",\"on\":", self.on) + opt_bool_field(",\"off\":", self.off)
            + opt_str_field(",\"err\":", self.err) + ("}").spec_bytes()
    }

    /// Serialize the request.
    #[verifier::rlimit(50)]
    pub fn to_json(&self) -> (r: Vec<u8>)
        ensures
            r@ =~= self.json(),
    {
        let mut out: Vec<u8> = Vec::new();
        push_lit(&mut out, "{\"req\":");
        push_json_str(&mut out, self.req);
        match self.name {
            Some(n) => {
                push_lit(&mut out, ",\"name\":");
                n.push_token(&mut out);
            },
            None => {},
        }
        push_opt_bool_field(&mut out, ",\"stop\":", self.stop);
        push_opt_str_field(&mut out, ",\"status\":", self.status);
        push_opt_str_field(&mut out, ",\"version\":", self.version);
        push_opt_str_field(&mut out, ",\"vvalue\":", self.vvalue);
        push_opt_bool_field(&mut out, ",\"on\":", self.on);
        push_opt_bool_field(&mut out, ",\"off\":", self.off);
        push_opt_str_field(&mut out, ",\"err\":", self.err);
        push_lit(&mut out, "}");
        out
    }
}

} // verus!
