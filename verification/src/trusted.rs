//! The calls that leave this crate. Verus does not look into these
//! functions: it takes each contract on trust, and everything proved
//! elsewhere in the crate rests on them.

use vstd::prelude::*;
use hyper::header::HeaderValue;
use hyper::Uri;
use uuid::Uuid;

verus! {

/// Whether `hyper::Uri` accepts `text` as a URI. The grammar is that of the
/// `http` crate's parser and is not restated here.
pub uninterp spec fn uri_accepts(text: Seq<char>) -> bool;

/// Whether a header value may hold the character `c`: a tab, or any
/// character from the space on other than DEL.
pub open spec fn is_header_value_char(c: char) -> bool {
    c == '\t' || (' ' <= c && c != '\x7f')
}

/// Whether `text` can be the value of a header.
pub open spec fn is_header_value(text: Seq<char>) -> bool {
    forall|i: int| 0 <= i < text.len() ==> is_header_value_char(#[trigger] text[i])
}

/// Whether `c` is a digit of lower-case hexadecimal notation.
pub open spec fn is_lower_hex(c: char) -> bool {
    ('0' <= c && c <= '9') || ('a' <= c && c <= 'f')
}

/// Whether `text` has the hyphenated form of a random (version 4) UUID:
/// 36 characters in groups of 8, 4, 4, 4 and 12 lower-case hexadecimal
/// digits with a hyphen between groups, the third group starting with `4`
/// and the fourth with `8`, `9`, `a` or `b`.
pub open spec fn is_random_uuid_text(text: Seq<char>) -> bool {
    &&& text.len() == 36
    &&& forall|i: int|
        0 <= i < 36 ==> if i == 8 || i == 13 || i == 18 || i == 23 {
            #[trigger] text[i] == '-'
        } else {
            is_lower_hex(text[i])
        }
    &&& text[14] == '4'
    &&& (text[19] == '8' || text[19] == '9' || text[19] == 'a' || text[19] == 'b')
}

/// Tries `text` as a URI with `str::parse::<hyper::Uri>`, that is with
/// `Uri::from_str` of the `http` crate, and tells whether it was accepted.
/// The contract gives the answer a name and no more: the answer depends
/// on the text alone.
#[verifier::external_body]
pub(crate) fn parses_as_uri(text: &str) -> (accepted: bool)
    ensures
        accepted == uri_accepts(text@),
{
    text.parse::<Uri>().is_ok()
}

/// Tries `text` as a header value with `str::parse::<HeaderValue>`, that
/// is with `HeaderValue::from_str` of the `http` crate, and tells whether
/// it was accepted. That function accepts a text exactly when each of its
/// bytes is a tab or is at least 32 and not 127; the bytes of a character
/// beyond ASCII are all above 127, so this is a condition on characters.
#[verifier::external_body]
pub(crate) fn parses_as_header_value(text: &str) -> (accepted: bool)
    ensures
        accepted == is_header_value(text@),
{
    text.parse::<HeaderValue>().is_ok()
}

/// Draws a random UUID with `Uuid::new_v4` and writes it out with its
/// `to_string`. Which UUID comes back is left open; the contract states the
/// form that every one of them has when written out. `new_v4` panics where
/// the operating system has no random bytes to give.
#[verifier::external_body]
pub(crate) fn random_uuid_text() -> (text: String)
    ensures
        is_random_uuid_text(text@),
{
    Uuid::new_v4().to_string()
}

} // verus!
