//! Small helpers on bytes and text that the codecs share.

use vstd::prelude::*;
use vstd::string::is_ascii;
use vstd::string::StringSliceAdditionalSpecFns;
use vstd::utf8::{decode_utf8, encode_utf8, is_ascii_chars};

verus! {

/// The bytes of a text that holds ASCII characters only.
pub open spec fn ascii_bytes(text: Seq<char>) -> Seq<u8> {
    Seq::new(text.len(), |i: int| text[i] as u8)
}

/// Whether two byte strings are equal.
pub fn bytes_eq(a: &[u8], b: &[u8]) -> (same: bool)
    ensures
        same == (a@ == b@),
{
    if a.len() != b.len() {
        return false;
    }
    let mut i: usize = 0;
    while i < a.len()
        invariant
            a@.len() == b@.len(),
            i <= a@.len(),
            forall|k: int| 0 <= k < i ==> a@[k] == b@[k],
        decreases a@.len() - i,
    {
        if a[i] != b[i] {
            return false;
        }
        i += 1;
    }
    assert(a@ =~= b@);
    true
}

/// Whether two texts are equal.
pub fn text_eq(a: &str, b: &str) -> (same: bool)
    ensures
        same == (a@ == b@),
{
    broadcast use vstd::utf8::encode_utf8_decode_utf8;

    let same = bytes_eq(a.as_bytes(), b.as_bytes());
    proof {
        if same {
            assert(decode_utf8(encode_utf8(a@)) == decode_utf8(encode_utf8(b@)));
        }
    }
    same
}

/// Whether a byte string is the given ASCII text.
pub(crate) fn is_ascii_text(payload: &[u8], text: &str) -> (same: bool)
    requires
        is_ascii_chars(text@),
    ensures
        same == (payload@ == ascii_bytes(text@)),
{
    broadcast use vstd::string::is_ascii_spec_bytes;

    assert(is_ascii(text));
    let bytes = text.as_bytes();
    assert(bytes@ =~= ascii_bytes(text@));
    bytes_eq(payload, bytes)
}

/// Appends an ASCII text to a byte buffer.
pub(crate) fn push_ascii(out: &mut Vec<u8>, text: &str)
    requires
        is_ascii_chars(text@),
    ensures
        final(out)@ == old(out)@ + ascii_bytes(text@),
{
    broadcast use vstd::string::is_ascii_spec_bytes;

    assert(is_ascii(text));
    let bytes = text.as_bytes();
    assert(bytes@ =~= ascii_bytes(text@));
    out.extend_from_slice(bytes);
}

} // verus!
