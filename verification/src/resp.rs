//! Classification of completed response payloads.
//!
//! The device reports application-level errors as ordinary responses whose
//! JSON object starts with the reserved `err` field. Such a payload is
//! recognized by its marker prefix, its message is extracted, and known
//! sentinel substrings are promoted to specific error kinds.
use vstd::prelude::*;

use crate::NoteError;
use crate::text::{all_ascii, ascii_bytes, bytes_as_chars, bytes_to_text, push_ascii};

verus! {

/// The prefix that marks a device-reported error payload.
pub open spec fn err_marker() -> Seq<u8> {
    ascii_bytes("{\"err\":"@)
}

/// The sentinel the device embeds in error messages while its firmware is
/// being updated.
pub open spec fn dfu_sentinel() -> Seq<u8> {
    ascii_bytes("{dfu-in-progress}"@)
}

/// Whether a completed response payload is a device-reported error.
pub open spec fn is_err_payload(body: Seq<u8>) -> bool {
    body.len() >= err_marker().len() && body.take(err_marker().len() as int) == err_marker()
}

/// The byte an escape sequence `\x` in a JSON string stands for, if the
/// escape is one this driver understands.
pub open spec fn unescape_byte(b: u8) -> Option<u8> {
    if b == 34 {
        Some(34u8)  // \"
    } else if b == 92 {
        Some(92u8)  // backslash
    } else if b == 47 {
        Some(47u8)  // \/
    } else if b == 110 {
        Some(10u8)  // \n
    } else if b == 114 {
        Some(13u8)  // \r
    } else if b == 116 {
        Some(9u8)  // \t
    } else if b == 98 {
        Some(8u8)  // \b
    } else if b == 102 {
        Some(12u8)  // \f
    } else {
        None
    }
}

/// The content of a JSON string whose opening quote has been consumed:
/// everything up to the closing quote, with escapes resolved. `None` when
/// the bytes do not form such a string.
pub open spec fn scan_quoted(s: Seq<u8>) -> Option<Seq<u8>>
    decreases s.len(),
{
    if s.len() == 0 {
        None
    } else if s[0] == 34 {
        Some(Seq::empty())
    } else if s[0] == 92 {
        if s.len() < 2 {
            None
        } else {
            match unescape_byte(s[1]) {
                None => None,
                Some(e) => match scan_quoted(s.skip(2)) {
                    None => None,
                    Some(m) => Some(seq![e] + m),
                },
            }
        }
    } else {
        match scan_quoted(s.skip(1)) {
            None => None,
            Some(m) => Some(seq![s[0]] + m),
        }
    }
}

/// The message of a device-reported error payload: the string value of the
/// leading `err` field. `None` when the payload cannot be read that way.
pub open spec fn err_message(body: Seq<u8>) -> Option<Seq<u8>> {
    if is_err_payload(body) && body.len() >= 8 && body[7] == 34 {
        scan_quoted(body.skip(8))
    } else {
        None
    }
}

/// Whether `needle` occurs contiguously somewhere in `hay`.
pub open spec fn contains_subseq(hay: Seq<u8>, needle: Seq<u8>) -> bool {
    exists|i: int|
        0 <= i && i + needle.len() <= hay.len() && #[trigger] hay.subrange(i, i + needle.len())
            == needle
}

/// How a device-reported error payload classifies: the firmware-update
/// sentinel is promoted to its own error kind; any other readable message
/// becomes a generic device error carrying it; an unreadable payload
/// surfaces as a deserialization error carrying the payload text.
pub open spec fn classified_as(body: Seq<u8>, e: NoteError) -> bool {
    match err_message(body) {
        Some(m) => {
            if contains_subseq(m, dfu_sentinel()) {
                e is DFUInProgress
            } else {
                e is NotecardErr && (all_ascii(m) ==> e->NotecardErr_0@ == bytes_as_chars(m))
            }
        },
        None => e is DeserError && (all_ascii(body) ==> e->DeserError_0@ == bytes_as_chars(body)),
    }
}

/// Whether `hay` begins with `prefix`.
fn starts_with(hay: &[u8], prefix: &[u8]) -> (r: bool)
    ensures
        r == (hay@.len() >= prefix@.len() && hay@.take(prefix@.len() as int) == prefix@),
{
    if hay.len() < prefix.len() {
        proof {
            assert(hay@.len() < prefix@.len());
        }
        return false;
    }
    let mut i: usize = 0;
    while i < prefix.len()
        invariant
            i <= prefix@.len() <= hay@.len(),
            forall|j: int| 0 <= j < i ==> hay@[j] == prefix@[j],
        decreases prefix@.len() - i,
    {
        if hay[i] != prefix[i] {
            proof {
                assert(hay@.take(prefix@.len() as int)[i as int] == hay@[i as int]);
                assert(hay@.take(prefix@.len() as int) != prefix@);
            }
            return false;
        }
        i = i + 1;
    }
    proof {
        assert(hay@.take(prefix@.len() as int) =~= prefix@);
    }
    true
}

/// Whether `needle` occurs contiguously somewhere in `hay`.
pub fn contains_subslice(hay: &[u8], needle: &[u8]) -> (r: bool)
    ensures
        r == contains_subseq(hay@, needle@),
{
    if needle.len() > hay.len() {
        proof {
            assert(!contains_subseq(hay@, needle@));
        }
        return false;
    }
    if needle.len() == 0 {
        proof {
            assert(hay@.subrange(0, 0 + needle@.len() as int) =~= needle@);
        }
        return true;
    }
    let n = hay.len();
    let m = needle.len();
    let mut i: usize = 0;
    let bound = n - m;
    while i <= bound
        invariant
            n == hay@.len(),
            m == needle@.len(),
            1 <= m <= n,
            bound == n - m,
            i <= bound + 1,
            forall|j: int|
                0 <= j < i ==> #[trigger] hay@.subrange(j, j + needle@.len()) != needle@,
        decreases bound + 1 - i,
    {
        if starts_with(&hay[i..hay.len()], needle) {
            proof {
                assert(hay@.subrange(i as int, hay@.len() as int).take(needle@.len() as int)
                    =~= hay@.subrange(i as int, i + needle@.len()));
            }
            return true;
        }
        proof {
            assert(hay@.subrange(i as int, hay@.len() as int).take(needle@.len() as int)
                =~= hay@.subrange(i as int, i + needle@.len()));
        }
        i = i + 1;
    }
    proof {
        assert forall|j: int| 0 <= j && j + needle@.len() <= hay@.len() implies #[trigger] hay@.subrange(
            j,
            j + needle@.len(),
        ) != needle@ by {
            assert(j < i);
        }
    }
    false
}

/// The relation an in-progress scan keeps to the whole string: what remains
/// to scan decides the outcome, and anything already collected prefixes the
/// final message.
spec fn scan_rel(s: Seq<u8>, i: int, acc: Seq<u8>) -> bool {
    &&& (scan_quoted(s) is Some <==> scan_quoted(s.skip(i)) is Some)
    &&& (scan_quoted(s) is Some ==> scan_quoted(s)->Some_0 == acc + scan_quoted(s.skip(i))->Some_0)
}

/// Extract the content of a JSON string whose opening quote has been
/// consumed, resolving escapes.
fn scan_quoted_exec(s: &[u8]) -> (r: Option<Vec<u8>>)
    ensures
        r is Some <==> scan_quoted(s@) is Some,
        r is Some ==> r->Some_0@ == scan_quoted(s@)->Some_0,
{
    let mut acc: Vec<u8> = Vec::new();
    let mut i: usize = 0;
    proof {
        assert(s@.skip(0) =~= s@);
    }
    while i < s.len()
        invariant
            i <= s@.len(),
            scan_rel(s@, i as int, acc@),
        decreases s@.len() - i,
    {
        let ghost rest = s@.skip(i as int);
        proof {
            assert(rest[0] == s@[i as int]);
        }
        let b = s[i];
        if b == 34 {
            proof {
                assert(scan_quoted(rest) == Some(Seq::<u8>::empty()));
                assert(acc@ + Seq::<u8>::empty() =~= acc@);
            }
            return Some(acc);
        } else if b == 92 {
            if i + 1 >= s.len() {
                proof {
                    assert(rest.len() < 2);
                    assert(scan_quoted(rest) is None);
                }
                return None;
            }
            proof {
                assert(rest[1] == s@[i + 1]);
            }
            let e = s[i + 1];
            let u: u8 = if e == 34 {
                34
            } else if e == 92 {
                92
            } else if e == 47 {
                47
            } else if e == 110 {
                10
            } else if e == 114 {
                13
            } else if e == 116 {
                9
            } else if e == 98 {
                8
            } else if e == 102 {
                12
            } else {
                proof {
                    assert(unescape_byte(rest[1]) is None);
                    assert(scan_quoted(rest) is None);
                }
                return None;
            };
            proof {
                assert(unescape_byte(rest[1]) == Some(u));
                assert(rest.skip(2) =~= s@.skip(i + 2));
                assert(scan_quoted(rest) == (match scan_quoted(rest.skip(2)) {
                    None => None::<Seq<u8>>,
                    Some(m) => Some(seq![u] + m),
                }));
                if scan_quoted(s@.skip(i + 2)) is Some {
                    assert((acc@ + seq![u]) + scan_quoted(s@.skip(i + 2))->Some_0 =~= acc@ + (
                    seq![u] + scan_quoted(s@.skip(i + 2))->Some_0));
                }
            }
            let ghost acc0 = acc@;
            acc.push(u);
            proof {
                assert(acc@ =~= acc0 + seq![u]);
            }
            i = i + 2;
        } else {
            proof {
                assert(rest.skip(1) =~= s@.skip(i + 1));
                assert(scan_quoted(rest) == (match scan_quoted(rest.skip(1)) {
                    None => None::<Seq<u8>>,
                    Some(m) => Some(seq![rest[0]] + m),
                }));
                if scan_quoted(s@.skip(i + 1)) is Some {
                    assert((acc@ + seq![b]) + scan_quoted(s@.skip(i + 1))->Some_0 =~= acc@ + (
                    seq![b] + scan_quoted(s@.skip(i + 1))->Some_0));
                }
            }
            let ghost acc0 = acc@;
            acc.push(b);
            proof {
                assert(acc@ =~= acc0 + seq![b]);
            }
            i = i + 1;
        }
    }
    proof {
        assert(s@.skip(i as int).len() == 0);
        assert(scan_quoted(s@.skip(i as int)) is None);
    }
    None
}

/// Whether a completed response payload is a device-reported error.
pub fn is_err_response(body: &[u8]) -> (r: bool)
    ensures
        r == is_err_payload(body@),
{
    let mut marker: Vec<u8> = Vec::new();
    proof {
        reveal_strlit("{\"err\":");
    }
    assert("{\"err\":".is_ascii());
    push_ascii(&mut marker, "{\"err\":");
    starts_with(body, marker.as_slice())
}

/// Classify a device-reported error payload into the error it stands for.
pub fn classify_response(body: &[u8]) -> (e: NoteError)
    requires
        is_err_payload(body@),
    ensures
        classified_as(body@, e),
{
    if body.len() >= 8 && body[7] == 34 {
        match scan_quoted_exec(&body[8..body.len()]) {
            Some(msg) => {
                proof {
                    assert(body@.subrange(8, body@.len() as int) =~= body@.skip(8));
                }
                let mut sentinel: Vec<u8> = Vec::new();
                proof {
                    reveal_strlit("{dfu-in-progress}");
                }
                assert("{dfu-in-progress}".is_ascii());
                push_ascii(&mut sentinel, "{dfu-in-progress}");
                if contains_subslice(msg.as_slice(), sentinel.as_slice()) {
                    NoteError::DFUInProgress
                } else {
                    NoteError::NotecardErr(bytes_to_text(msg.as_slice()))
                }
            },
            None => NoteError::DeserError(bytes_to_text(body)),
        }
    } else {
        NoteError::DeserError(bytes_to_text(body))
    }
}

} // verus!
