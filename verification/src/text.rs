//! Caller identification text: decoding the callsign bytes of a TEXT
//! frame, with whitespace trimming and a sentinel for undecodable input.

use vstd::prelude::*;
use vstd::utf8::{decode_utf8, valid_utf8};

verus! {

/// The sentinel callsign used until an identification frame names one,
/// and substituted whenever the identification bytes cannot be decoded.
pub open spec fn unknown_callsign() -> Seq<char> {
    "UNKNOWN"@
}

/// True for the characters the Unicode `White_Space` property covers,
/// which is what `str::trim` removes at either end.
pub open spec fn is_whitespace_char(c: char) -> bool {
    ||| c == ' '
    ||| ('\u{09}' <= c && c <= '\u{0D}')
    ||| c == '\u{85}'
    ||| c == '\u{A0}'
    ||| c == '\u{1680}'
    ||| ('\u{2000}' <= c && c <= '\u{200A}')
    ||| c == '\u{2028}'
    ||| c == '\u{2029}'
    ||| c == '\u{202F}'
    ||| c == '\u{205F}'
    ||| c == '\u{3000}'
}

/// `s` with its leading whitespace removed.
pub open spec fn trim_start_spec(s: Seq<char>) -> Seq<char>
    decreases s.len(),
{
    if s.len() > 0 && is_whitespace_char(s.first()) {
        trim_start_spec(s.drop_first())
    } else {
        s
    }
}

/// `s` with its trailing whitespace removed.
pub open spec fn trim_end_spec(s: Seq<char>) -> Seq<char>
    decreases s.len(),
{
    if s.len() > 0 && is_whitespace_char(s.last()) {
        trim_end_spec(s.drop_last())
    } else {
        s
    }
}

/// `s` with whitespace removed from both ends.
pub open spec fn trim_spec(s: Seq<char>) -> Seq<char> {
    trim_end_spec(trim_start_spec(s))
}

/// The callsign `find_call` extracts from identification bytes: their
/// trimmed text when they decode, the sentinel when they do not.
pub open spec fn find_call_spec(b: Seq<u8>) -> Seq<char> {
    if valid_utf8(b) {
        trim_spec(decode_utf8(b))
    } else {
        unknown_callsign()
    }
}

/// Relies on `str::trim`: it removes exactly the leading and trailing
/// `White_Space` characters and keeps the rest unchanged.
#[verifier::external_body]
fn trim_str(s: &str) -> (r: String)
    ensures
        r@ == trim_spec(s@),
{
    s.trim().to_owned()
}

/// Extracts the callsign from raw identification bytes: the trimmed
/// decoded text, or `"UNKNOWN"` when the bytes are not valid text.
pub fn find_call(b: &[u8]) -> (r: String)
    ensures
        r@ == find_call_spec(b@),
{
    match crate::frame::bytes_to_str(b) {
        Some(s) => trim_str(s),
        None => "UNKNOWN".to_owned(),
    }
}

} // verus!
