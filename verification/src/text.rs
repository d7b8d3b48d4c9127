//! Text operations taken on trust from the standard library.

use vstd::prelude::*;

verus! {

/// What `std::str::from_utf8` yields on a given byte sequence: the decoded
/// text where the bytes are valid text, nothing where they are not. The
/// result depends on the bytes alone.
pub uninterp spec fn utf8_decode(bytes: Seq<u8>) -> Option<Seq<char>>;

/// Relies on std::str::from_utf8: it returns the text of the bytes exactly
/// when they are valid UTF-8, and an error otherwise.
#[verifier::external_body]
pub(crate) fn utf8_to_text(bytes: &[u8]) -> (r: Option<String>)
    ensures
        match r {
            Some(s) => utf8_decode(bytes@) == Some(s@),
            None => utf8_decode(bytes@) is None,
        },
{
    match std::str::from_utf8(bytes) {
        Ok(s) => Some(s.to_string()),
        Err(_) => None,
    }
}

/// Relies on String::push_str: it appends the given text to the string.
pub assume_specification[ String::push_str ](s: &mut String, suffix: &str)
    ensures
        final(s)@ == old(s)@ + suffix@,
;

} // verus!
