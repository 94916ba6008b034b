//! Which texts can stand as the value of an HTTP header.

use vstd::prelude::*;
use crate::text::option_view;

verus! {

/// Whether a character can stand in the value of a header: the tab, and
/// every character from the space on but the delete character.
pub open spec fn is_header_char(c: char) -> bool {
    c == '\t' || (c as u32 >= 32 && c as u32 != 127)
}

/// Whether a text can stand as the value of a header.
pub open spec fn is_header_text(s: Seq<char>) -> bool {
    forall|i: int| 0 <= i < s.len() ==> is_header_char(#[trigger] s[i])
}

/// Whether `value` can stand as the value of a header.
///
/// Trusted: calls `HeaderValue::from_str` of the `http` crate, which
/// `reqwest` hands on, and keeps whether it succeeded. The call accepts a
/// text whose every byte is the tab or is at least 32 and not 127; a
/// character beyond ASCII is encoded in bytes from 128 on, so the contract
/// states the same of the characters.
#[verifier::external_body]
pub(crate) fn is_header_value(value: &str) -> (ok: bool)
    ensures
        ok == is_header_text(value@),
{
    reqwest::header::HeaderValue::from_str(value).is_ok()
}

/// `value` where it can stand as the value of a header, `None` where it
/// cannot.
pub open spec fn header_value_of(value: Seq<char>) -> Option<Seq<char>> {
    if is_header_text(value) {
        Some(value)
    } else {
        None
    }
}

/// Accepts a text as the value of a header, or refuses it.
pub fn header_value(value: String) -> (accepted: Option<String>)
    ensures
        option_view(accepted) == header_value_of(value@),
{
    if is_header_value(value.as_str()) {
        Some(value)
    } else {
        None
    }
}

} // verus!
