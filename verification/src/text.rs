//! Byte-level views of ASCII string literals, shared by the wire builders
//! and the response classifier.
use vstd::prelude::*;
use vstd::string::StringSliceAdditionalSpecFns;

verus! {

/// The bytes of a string whose characters are all ASCII: one byte per
/// character.
pub open spec fn ascii_bytes(s: Seq<char>) -> Seq<u8> {
    s.map_values(|c: char| c as u8)
}

/// Append the bytes of an ASCII string to a byte vector.
pub fn push_ascii(out: &mut Vec<u8>, s: &str)
    requires
        s.is_ascii(),
    ensures
        final(out)@ =~= old(out)@ + ascii_bytes(s@),
{
    proof {
        broadcast use vstd::string::is_ascii_spec_bytes;

    }
    let bs = s.as_bytes();
    proof {
        assert(bs@ =~= ascii_bytes(s@));
    }
    out.extend_from_slice(bs);
}

/// Whether every byte is ASCII.
pub open spec fn all_ascii(s: Seq<u8>) -> bool {
    forall|i: int| 0 <= i < s.len() ==> s[i] < 128
}

/// The characters that a byte sequence spells, one character per byte.
/// Faithful for ASCII data, which is all the protocol ever carries.
pub open spec fn bytes_as_chars(s: Seq<u8>) -> Seq<char> {
    s.map_values(|b: u8| b as char)
}

/// Whether two byte slices hold the same bytes.
pub fn bytes_eq(a: &[u8], b: &[u8]) -> (r: bool)
    ensures
        r == (a@ == b@),
{
    if a.len() != b.len() {
        proof {
            assert(a@ != b@);
        }
        return false;
    }
    let mut i: usize = 0;
    while i < a.len()
        invariant
            a@.len() == b@.len(),
            i <= a@.len(),
            forall|j: int| 0 <= j < i ==> a@[j] == b@[j],
        decreases a@.len() - i,
    {
        if a[i] != b[i] {
            proof {
                assert(a@ != b@);
            }
            return false;
        }
        i = i + 1;
    }
    proof {
        assert(a@ =~= b@);
    }
    true
}

/// Best-effort text of a received payload, for diagnostics.
///
/// Relies on std's String::from_utf8_lossy: ASCII bytes decode to the
/// characters they spell. Nothing is claimed of non-ASCII input.
#[verifier::external_body]
pub fn bytes_to_text(b: &[u8]) -> (r: String)
    ensures
        all_ascii(b@) ==> r@ =~= bytes_as_chars(b@),
{
    String::from_utf8_lossy(b).into_owned()
}

} // verus!
