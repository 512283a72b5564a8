//! Note request shapes and their wire encodings. A note body arrives here
//! as an already-serialized JSON object and is embedded verbatim.
use vstd::prelude::*;
use vstd::string::StringSliceAdditionalSpecFns;

use crate::json::{
    bool_bytes, json_str_bytes, opt_bool_field, opt_str_field, opt_u32_field, push_bool,
    push_json_str, push_lit, push_opt_bool_field, push_opt_raw_field, push_opt_str_field,
    push_opt_u32_field,
};

verus! {

/// `note.add`: add a note to a file.
pub struct Add<'a> {
    pub req: &'static str,
    pub file: Option<&'a str>,
    pub note: Option<&'a str>,
    pub body: Option<&'a [u8]>,
    pub payload: Option<&'a str>,
    pub sync: Option<bool>,
    pub key: Option<&'a str>,
    pub verify: Option<bool>,
}

impl<'a> Add<'a> {
    /// The JSON object this request serializes to.
    pub open spec fn json(self) -> Seq<u8> {
        ("{\"req\":").spec_bytes() + json_str_bytes(self.req.spec_bytes()) + opt_str_field(
            ",\"file\":",
            self.file,
        ) + opt_str_field(",\"note\":", self.note) + (match self.body {
            Some(b) => (",\"body\":").spec_bytes() + b@,
            None => Seq::empty(),
        }) + opt_str_field(",\"payload\":", self.payload) + opt_bool_field(
            ",\"sync\":",
            self.sync,
        ) + opt_str_field(",\"key\":", self.key) + opt_bool_field(",\"verify\":", self.verify) + (
        "}").spec_bytes()
    }

    /// Serialize the request.
    #[verifier::rlimit(50)]
    pub fn to_json(&self) -> (r: Vec<u8>)
        ensures
            r@ =~= self.json(),
    {
        let mut out: Vec<u8> = Vec::new();
        push_lit(&mut out, "{\"req\":");
        push_json_str(&mut out, self.req);
        push_opt_str_field(&mut out, ",\"file\":", self.file);
        push_opt_str_field(&mut out, ",\"note\":", self.note);
        push_opt_raw_field(&mut out, ",\"body\":", self.body);
        push_opt_str_field(&mut out, ",\"payload\":", self.payload);
        push_opt_bool_field(&mut out, ",\"sync\":", self.sync);
        push_opt_str_field(&mut out, ",\"key\":", self.key);
        push_opt_bool_field(&mut out, ",\"verify\":", self.verify);
        push_lit(&mut out, "}");
        out
    }
}

/// `note.update`: replace a note's body and payload.
pub struct Update<'a> {
    pub req: &'static str,
    pub file: &'a str,
    pub note: &'a str,
    pub body: Option<&'a [u8]>,
    pub payload: Option<&'a str>,
    pub verify: bool,
}

impl<'a> Update<'a> {
    /// The JSON object this request serializes to.
    pub open spec fn json(self) -> Seq<u8> {
        ("{\"req\":").spec_bytes() + json_str_bytes(self.req.spec_bytes()) + (
        ",\"file\":").spec_bytes() + json_str_bytes(self.file.spec_bytes()) + (
        ",\"note\":").spec_bytes() + json_str_bytes(self.note.spec_bytes()) + (match self.body {
            Some(b) => (",\"body\":").spec_bytes() + b@,
            None => Seq::empty(),
        }) + opt_str_field(",\"payload\":", self.payload) + (",\"verify\":").spec_bytes()
            + bool_bytes(self.verify) + ("}").spec_bytes()
    }

    /// Serialize the request.
    #[verifier::rlimit(50)]
    pub fn to_json(&self) -> (r: Vec<u8>)
        ensures
            r@ =~= self.json(),
    {
        let mut out: Vec<u8> = Vec::new();
        push_lit(&mut out, "{\"req\":");
        push_json_str(&mut out, self.req);
        push_lit(&mut out, ",\"file\":");
        push_json_str(&mut out, self.file);
        push_lit(&mut out, ",\"note\":");
        push_json_str(&mut out, self.note);
        push_opt_raw_field(&mut out, ",\"body\":", self.body);
        push_opt_str_field(&mut out, ",\"payload\":", self.payload);
        push_lit(&mut out, ",\"verify\":");
        push_bool(&mut out, self.verify);
        push_lit(&mut out, "}");
        out
    }
}

/// `note.delete`: delete a note from a database file.
pub struct Delete<'a> {
    pub req: &'static str,
    pub file: &'a str,
    pub note: &'a str,
    pub verify: bool,
}

impl<'a> Delete<'a> {
    /// The JSON object this request serializes to.
    pub open spec fn json(self) -> Seq<u8> {
        ("{\"req\":").spec_bytes() + json_str_bytes(self.req.spec_bytes()) + (
        ",\"file\":").spec_bytes() + json_str_bytes(self.file.spec_bytes()) + (
        ",\"note\":").spec_bytes() + json_str_bytes(self.note.spec_bytes()) + (
        ",\"verify\":").spec_bytes() + bool_bytes(self.verify) + ("}").spec_bytes()
    }

    /// Serialize the request.
    pub fn to_json(&self) -> (r: Vec<u8>)
        ensures
            r@ =~= self.json(),
    {
        let mut out: Vec<u8> = Vec::new();
        push_lit(&mut out, "{\"req\":");
        push_json_str(&mut out, self.req);
        push_lit(&mut out, ",\"file\":");
        push_json_str(&mut out, self.file);
        push_lit(&mut out, ",\"note\":");
        push_json_str(&mut out, self.note);
        push_lit(&mut out, ",\"verify\":");
        push_bool(&mut out, self.verify);
        push_lit(&mut out, "}");
        out
    }
}

/// `note.get`: retrieve a note from a file.
pub struct Get<'a> {
    pub req: &'static str,
    pub file: &'a str,
    pub note: &'a str,
    pub delete: bool,
    pub deleted: bool,
}

impl<'a> Get<'a> {
    /// The JSON object this request serializes to.
    pub open spec fn json(self) -> Seq<u8> {
        ("{\"req\":").spec_bytes() + json_str_bytes(self.req.spec_bytes()) + (
        ",\"file\":").spec_bytes() + json_str_bytes(self.file.spec_bytes()) + (
        ",\"note\":").spec_bytes() + json_str_bytes(self.note.spec_bytes()) + (
        ",\"delete\":").spec_bytes() + bool_bytes(self.delete) + (",\"deleted\":").spec_bytes()
            + bool_bytes(self.deleted) + ("}").spec_bytes()
    }

    /// Serialize the request.
    pub fn to_json(&self) -> (r: Vec<u8>)
        ensures
            r@ =~= self.json(),
    {
        let mut out: Vec<u8> = Vec::new();
        push_lit(&mut out, "{\"req\":");
        push_json_str(&mut out, self.req);
        push_lit(&mut out, ",\"file\":");
        push_json_str(&mut out, self.file);
        push_lit(&mut out, ",\"note\":");
        push_json_str(&mut out, self.note);
        push_lit(&mut out, ",\"delete\":");
        push_bool(&mut out, self.delete);
        push_lit(&mut out, ",\"deleted\":");
        push_bool(&mut out, self.deleted);
        push_lit(&mut out, "}");
        out
    }
}

/// `note.template`: provide a schema for future notes in a file.
pub struct Template<'a> {
    pub req: &'static str,
    pub file: Option<&'a str>,
    pub body: Option<&'a [u8]>,
    pub length: Option<u32>,
    pub format: Option<&'a str>,
    pub port: Option<u32>,
    pub delete: Option<bool>,
}

impl<'a> Template<'a> {
    /// The JSON object this request serializes to.
    pub open spec fn json(self) -> Seq<u8> {
        ("{\"req\":").spec_bytes() + json_str_bytes(self.req.spec_bytes()) + opt_str_field(
            ",\"file\":",
            self.file,
        ) + (match self.body {
            Some(b) => (",\"body\":").spec_bytes() + b@,
            None => Seq::empty(),
        }) + opt_u32_field(",\"length\":", self.length) + opt_str_field(
            ",\"format\":",
            self.format,
        ) + opt_u32_field(",\"port\":", self.port) + opt_bool_field(",\"delete\":", self.delete) + (
        "}").spec_bytes()
    }

    /// Serialize the request.
    #[verifier::rlimit(50)]
    pub fn to_json(&self) -> (r: Vec<u8>)
        ensures
            r@ =~= self.json(),
    {
        let mut out: Vec<u8> = Vec::new();
        push_lit(&mut out, "{\"req\":");
        push_json_str(&mut out, self.req);
        push_opt_str_field(&mut out, ",\"file\":", self.file);
        push_opt_raw_field(&mut out, ",\"body\":", self.body);
        push_opt_u32_field(&mut out, ",\"length\":", self.length);
        push_opt_str_field(&mut out, ",\"format\":", self.format);
        push_opt_u32_field(&mut out, ",\"port\":", self.port);
        push_opt_bool_field(&mut out, ",\"delete\":", self.delete);
        push_lit(&mut out, "}");
        out
    }
}

} // verus!
