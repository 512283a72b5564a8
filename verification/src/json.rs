//! Building the JSON request bodies that travel to the device.
//!
//! Every request is one flat JSON object with a constant command name and
//! optional fields. The builders in the feature modules assemble their
//! objects from the primitives here: quoted strings with standard JSON
//! escaping, decimal integers and bare literals.
use vstd::prelude::*;
use vstd::string::StringSliceAdditionalSpecFns;

verus! {

/// The lowercase hex digit for a value below 16.
pub open spec fn hex_digit(n: u8) -> u8 {
    if n < 10 {
        (48 + n) as u8
    } else {
        (87 + n) as u8
    }
}

/// How one byte of string content appears inside a JSON string: quote,
/// backslash and the named control characters get a two-byte escape, other
/// control characters a `\u00XX` escape, and everything else stands as
/// itself.
pub open spec fn esc_byte(b: u8) -> Seq<u8> {
    if b == 34 {
        seq![92u8, 34u8]
    } else if b == 92 {
        seq![92u8, 92u8]
    } else if b == 8 {
        seq![92u8, 98u8]
    } else if b == 9 {
        seq![92u8, 116u8]
    } else if b == 10 {
        seq![92u8, 110u8]
    } else if b == 12 {
        seq![92u8, 102u8]
    } else if b == 13 {
        seq![92u8, 114u8]
    } else if b < 32 {
        seq![92u8, 117u8, 48u8, 48u8, hex_digit(b / 16), hex_digit(b % 16)]
    } else {
        seq![b]
    }
}

/// A byte sequence with every byte escaped as JSON string content.
pub open spec fn esc(s: Seq<u8>) -> Seq<u8>
    decreases s.len(),
{
    if s.len() == 0 {
        Seq::empty()
    } else {
        esc_byte(s[0]) + esc(s.skip(1))
    }
}

/// Escaping distributes over appending one byte at the end.
proof fn lemma_esc_snoc(s: Seq<u8>, b: u8)
    ensures
        esc(s.push(b)) =~= esc(s) + esc_byte(b),
    decreases s.len(),
{
    if s.len() == 0 {
        assert(s.push(b)[0] == b);
        assert(s.push(b).skip(1) =~= Seq::<u8>::empty());
        assert(esc(s.push(b)) =~= esc_byte(b) + esc(s.push(b).skip(1)));
        assert(esc(s.push(b).skip(1)) =~= Seq::<u8>::empty());
        assert(esc(s) =~= Seq::<u8>::empty());
    } else {
        lemma_esc_snoc(s.skip(1), b);
        assert(s.push(b)[0] == s[0]);
        assert(s.push(b).skip(1) =~= s.skip(1).push(b));
        assert(esc_byte(s[0]) + (esc(s.skip(1)) + esc_byte(b)) =~= (esc_byte(s[0]) + esc(
            s.skip(1),
        )) + esc_byte(b));
    }
}

/// A byte sequence as a complete JSON string token: quoted and escaped.
pub open spec fn json_str_bytes(s: Seq<u8>) -> Seq<u8> {
    seq![34u8] + esc(s) + seq![34u8]
}

/// The decimal digits of a number, most significant first.
pub open spec fn dec_bytes(n: nat) -> Seq<u8>
    decreases n,
{
    if n < 10 {
        seq![(48 + n) as u8]
    } else {
        dec_bytes(n / 10) + seq![(48 + (n % 10)) as u8]
    }
}

/// A possibly negative number in decimal, with a leading minus sign when
/// negative.
pub open spec fn dec_bytes_signed(n: int) -> Seq<u8> {
    if n < 0 {
        seq![45u8] + dec_bytes((-n) as nat)
    } else {
        dec_bytes(n as nat)
    }
}

/// A JSON boolean token.
pub open spec fn bool_bytes(b: bool) -> Seq<u8> {
    if b {
        ("true").spec_bytes()
    } else {
        ("false").spec_bytes()
    }
}

/// Append a string literal's bytes.
pub fn push_lit(out: &mut Vec<u8>, s: &str)
    ensures
        final(out)@ =~= old(out)@ + s.spec_bytes(),
{
    out.extend_from_slice(s.as_bytes());
}

/// Append raw bytes as they are. Used for field values that are already
/// JSON, such as a pre-serialized request body.
pub fn push_raw(out: &mut Vec<u8>, s: &[u8])
    ensures
        final(out)@ =~= old(out)@ + s@,
{
    out.extend_from_slice(s);
}

/// Append escaped JSON string content.
fn push_escaped(out: &mut Vec<u8>, bs: &[u8])
    ensures
        final(out)@ =~= old(out)@ + esc(bs@),
{
    let mut i: usize = 0;
    proof {
        assert(bs@.take(0) =~= Seq::<u8>::empty());
        assert(old(out)@ + esc(bs@.take(0)) =~= old(out)@);
    }
    while i < bs.len()
        invariant
            i <= bs@.len(),
            out@ =~= old(out)@ + esc(bs@.take(i as int)),
        decreases bs@.len() - i,
    {
        let b = bs[i];
        if b == 34 {
            out.push(92);
            out.push(34);
        } else if b == 92 {
            out.push(92);
            out.push(92);
        } else if b == 8 {
            out.push(92);
            out.push(98);
        } else if b == 9 {
            out.push(92);
            out.push(116);
        } else if b == 10 {
            out.push(92);
            out.push(110);
        } else if b == 12 {
            out.push(92);
            out.push(102);
        } else if b == 13 {
            out.push(92);
            out.push(114);
        } else if b < 32 {
            out.push(92);
            out.push(117);
            out.push(48);
            out.push(48);
            let hi = b / 16;
            let lo = b % 16;
            out.push(if hi < 10 { 48 + hi } else { 87 + hi });
            out.push(if lo < 10 { 48 + lo } else { 87 + lo });
        } else {
            out.push(b);
        }
        proof {
            lemma_esc_snoc(bs@.take(i as int), bs@[i as int]);
            assert(bs@.take(i + 1) =~= bs@.take(i as int).push(bs@[i as int]));
            assert(out@ =~= (old(out)@ + esc(bs@.take(i as int))) + esc_byte(bs@[i as int]));
            assert((old(out)@ + esc(bs@.take(i as int))) + esc_byte(bs@[i as int]) =~= old(out)@ + (
            esc(bs@.take(i as int)) + esc_byte(bs@[i as int])));
        }
        i = i + 1;
    }
    proof {
        assert(bs@.take(i as int) =~= bs@);
    }
}

/// Append a string value as a JSON string token, escaping its content.
pub fn push_json_str(out: &mut Vec<u8>, s: &str)
    ensures
        final(out)@ =~= old(out)@ + json_str_bytes(s.spec_bytes()),
{
    out.push(34);
    push_escaped(out, s.as_bytes());
    out.push(34);
    proof {
        assert(((old(out)@ + seq![34u8]) + esc(s.spec_bytes())).push(34u8) =~= old(out)@
            + json_str_bytes(s.spec_bytes()));
    }
}

/// Append a number in decimal.
pub fn push_u32(out: &mut Vec<u8>, v: u32)
    ensures
        final(out)@ =~= old(out)@ + dec_bytes(v as nat),
    decreases v,
{
    if v >= 10 {
        push_u32(out, v / 10);
    }
    out.push(48 + (v % 10) as u8);
    proof {
        if v >= 10 {
            assert((old(out)@ + dec_bytes((v / 10) as nat)) + seq![(48 + (v as nat % 10)) as u8]
                =~= old(out)@ + (dec_bytes((v / 10) as nat) + seq![(48 + (v as nat % 10)) as u8]));
        }
    }
}

/// Append a number in decimal.
pub fn push_usize(out: &mut Vec<u8>, v: usize)
    ensures
        final(out)@ =~= old(out)@ + dec_bytes(v as nat),
    decreases v,
{
    if v >= 10 {
        push_usize(out, v / 10);
    }
    out.push(48 + (v % 10) as u8);
    proof {
        if v >= 10 {
            assert((old(out)@ + dec_bytes((v / 10) as nat)) + seq![(48 + (v as nat % 10)) as u8]
                =~= old(out)@ + (dec_bytes((v / 10) as nat) + seq![(48 + (v as nat % 10)) as u8]));
        }
    }
}

/// Append a possibly negative number in decimal.
pub fn push_i32(out: &mut Vec<u8>, v: i32)
    ensures
        final(out)@ =~= old(out)@ + dec_bytes_signed(v as int),
{
    if v < 0 {
        out.push(45);
        let m: u32 = (-(v as i64)) as u32;
        proof {
            assert(m as nat == (-(v as int)) as nat);
        }
        push_u32(out, m);
        proof {
            assert((old(out)@ + seq![45u8]) + dec_bytes(m as nat) =~= old(out)@ + (seq![45u8]
                + dec_bytes(m as nat)));
        }
    } else {
        push_u32(out, v as u32);
    }
}

/// Append a JSON boolean token.
pub fn push_bool(out: &mut Vec<u8>, b: bool)
    ensures
        final(out)@ =~= old(out)@ + bool_bytes(b),
{
    if b {
        push_lit(out, "true");
    } else {
        push_lit(out, "false");
    }
}

/// An optional string member: key and quoted value when present, nothing
/// when absent. `key` carries its own separator and colon.
pub open spec fn opt_str_field(key: &str, v: Option<&str>) -> Seq<u8> {
    match v {
        Some(s) => key.spec_bytes() + json_str_bytes(s.spec_bytes()),
        None => Seq::empty(),
    }
}

/// Append an optional string member.
pub fn push_opt_str_field(out: &mut Vec<u8>, key: &str, v: Option<&str>)
    ensures
        final(out)@ =~= old(out)@ + opt_str_field(key, v),
{
    match v {
        Some(s) => {
            push_lit(out, key);
            push_json_str(out, s);
            proof {
                assert((old(out)@ + key.spec_bytes()) + json_str_bytes(s.spec_bytes()) =~= old(
                    out,
                )@ + (key.spec_bytes() + json_str_bytes(s.spec_bytes())));
            }
        },
        None => {
            proof {
                assert(out@ + Seq::<u8>::empty() =~= out@);
            }
        },
    }
}

/// An optional boolean member.
pub open spec fn opt_bool_field(key: &str, v: Option<bool>) -> Seq<u8> {
    match v {
        Some(b) => key.spec_bytes() + bool_bytes(b),
        None => Seq::empty(),
    }
}

/// Append an optional boolean member.
pub fn push_opt_bool_field(out: &mut Vec<u8>, key: &str, v: Option<bool>)
    ensures
        final(out)@ =~= old(out)@ + opt_bool_field(key, v),
{
    match v {
        Some(b) => {
            push_lit(out, key);
            push_bool(out, b);
            proof {
                assert((old(out)@ + key.spec_bytes()) + bool_bytes(b) =~= old(out)@ + (
                key.spec_bytes() + bool_bytes(b)));
            }
        },
        None => {
            proof {
                assert(out@ + Seq::<u8>::empty() =~= out@);
            }
        },
    }
}

/// An optional numeric member.
pub open spec fn opt_u32_field(key: &str, v: Option<u32>) -> Seq<u8> {
    match v {
        Some(n) => key.spec_bytes() + dec_bytes(n as nat),
        None => Seq::empty(),
    }
}

/// Append an optional numeric member.
pub fn push_opt_u32_field(out: &mut Vec<u8>, key: &str, v: Option<u32>)
    ensures
        final(out)@ =~= old(out)@ + opt_u32_field(key, v),
{
    match v {
        Some(n) => {
            push_lit(out, key);
            push_u32(out, n);
            proof {
                assert((old(out)@ + key.spec_bytes()) + dec_bytes(n as nat) =~= old(out)@ + (
                key.spec_bytes() + dec_bytes(n as nat)));
            }
        },
        None => {
            proof {
                assert(out@ + Seq::<u8>::empty() =~= out@);
            }
        },
    }
}

/// An optional possibly-negative numeric member.
pub open spec fn opt_i32_field(key: &str, v: Option<i32>) -> Seq<u8> {
    match v {
        Some(n) => key.spec_bytes() + dec_bytes_signed(n as int),
        None => Seq::empty(),
    }
}

/// Append an optional possibly-negative numeric member.
pub fn push_opt_i32_field(out: &mut Vec<u8>, key: &str, v: Option<i32>)
    ensures
        final(out)@ =~= old(out)@ + opt_i32_field(key, v),
{
    match v {
        Some(n) => {
            push_lit(out, key);
            push_i32(out, n);
            proof {
                assert((old(out)@ + key.spec_bytes()) + dec_bytes_signed(n as int) =~= old(out)@ + (
                key.spec_bytes() + dec_bytes_signed(n as int)));
            }
        },
        None => {
            proof {
                assert(out@ + Seq::<u8>::empty() =~= out@);
            }
        },
    }
}

/// An optional size member.
pub open spec fn opt_usize_field(key: &str, v: Option<usize>) -> Seq<u8> {
    match v {
        Some(n) => key.spec_bytes() + dec_bytes(n as nat),
        None => Seq::empty(),
    }
}

/// Append an optional size member.
pub fn push_opt_usize_field(out: &mut Vec<u8>, key: &str, v: Option<usize>)
    ensures
        final(out)@ =~= old(out)@ + opt_usize_field(key, v),
{
    match v {
        Some(n) => {
            push_lit(out, key);
            push_usize(out, n);
            proof {
                assert((old(out)@ + key.spec_bytes()) + dec_bytes(n as nat) =~= old(out)@ + (
                key.spec_bytes() + dec_bytes(n as nat)));
            }
        },
        None => {
            proof {
                assert(out@ + Seq::<u8>::empty() =~= out@);
            }
        },
    }
}

/// An optional member whose value is raw, already-serialized JSON.
pub open spec fn opt_raw_field(key: &str, v: Option<Seq<u8>>) -> Seq<u8> {
    match v {
        Some(s) => key.spec_bytes() + s,
        None => Seq::empty(),
    }
}

/// Append an optional member whose value is raw, already-serialized JSON.
pub fn push_opt_raw_field(out: &mut Vec<u8>, key: &str, v: Option<&[u8]>)
    ensures
        ({
            let vv = match v {
                Some(s) => Some(s@),
                None => None,
            };
            final(out)@ =~= old(out)@ + opt_raw_field(key, vv)
        }),
{
    match v {
        Some(s) => {
            push_lit(out, key);
            push_raw(out, s);
            proof {
                assert((old(out)@ + key.spec_bytes()) + s@ =~= old(out)@ + (key.spec_bytes()
                    + s@));
            }
        },
        None => {
            proof {
                assert(out@ + Seq::<u8>::empty() =~= out@);
            }
        },
    }
}

} // verus!
