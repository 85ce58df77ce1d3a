//! Helpers for the text of symbols and strings.

use vstd::prelude::*;
use vstd::string::StringSliceAdditionalSpecFns;
use vstd::utf8::{decode_utf8, encode_utf8, encode_utf8_decode_utf8, valid_utf8};

verus! {

/// Reports whether two byte slices hold the same bytes.
pub fn bytes_eq(a: &[u8], b: &[u8]) -> (equal: bool)
    ensures
        equal == (a@ == b@),
{
    if a.len() != b.len() {
        return false;
    }
    let mut i: usize = 0;
    while i < a.len()
        invariant
            i <= a@.len(),
            a@.len() == b@.len(),
            forall|j: int| 0 <= j < i ==> a@[j] == b@[j],
        decreases a@.len() - i,
    {
        if a[i] != b[i] {
            return false;
        }
        i += 1;
    }
    assert(a@ =~= b@);
    true
}

/// Two texts with the same UTF-8 encoding are the same text.
pub proof fn lemma_utf8_encoding_decides(a: Seq<char>, b: Seq<char>)
    requires
        encode_utf8(a) == encode_utf8(b),
    ensures
        a == b,
{
    encode_utf8_decode_utf8(a);
    encode_utf8_decode_utf8(b);
}

/// Reports whether two texts are the same.
pub fn str_eq(a: &str, b: &str) -> (equal: bool)
    ensures
        equal == (a@ == b@),
{
    let equal = bytes_eq(a.as_bytes(), b.as_bytes());
    proof {
        if equal {
            lemma_utf8_encoding_decides(a@, b@);
        }
    }
    equal
}

/// Reads `bytes` as UTF-8 text, by `core::str::from_utf8`.
///
/// `from_utf8` succeeds exactly on well-formed UTF-8, and the text it returns
/// has the bytes it was given.
#[verifier::external_body]
pub(crate) fn str_from_utf8<'a>(bytes: &'a [u8]) -> (text: Option<&'a str>)
    ensures
        text is Some <==> valid_utf8(bytes@),
        text is Some ==> text->Some_0.spec_bytes() == bytes@,
{
    core::str::from_utf8(bytes).ok()
}

/// The text that well-formed UTF-8 `bytes` spell.
pub open spec fn text_of(bytes: Seq<u8>) -> Seq<char> {
    decode_utf8(bytes)
}

/// Reads `bytes` as UTF-8 text; `None` when they are not well-formed UTF-8.
pub fn decode_text<'a>(bytes: &'a [u8]) -> (text: Option<&'a str>)
    ensures
        text is Some <==> valid_utf8(bytes@),
        text is Some ==> text->Some_0@ == text_of(bytes@) && encode_utf8(text->Some_0@)
            == bytes@,
{
    let text = str_from_utf8(bytes);
    proof {
        if let Some(t) = text {
            encode_utf8_decode_utf8(t@);
        }
    }
    text
}

/// Returns an owned copy of `text`.
pub fn owned_text(text: &str) -> (owned: String)
    ensures
        owned@ == text@,
{
    text.to_owned()
}

} // verus!
