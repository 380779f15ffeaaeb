//! Small pieces of text that the reports are put together from.

use vstd::prelude::*;
use vstd::string::StringExecFns;

verus! {

/// What `std` writes for a string under the `{:?}` format: the string between
/// double quotes, with the characters that `char::escape_debug` escapes
/// written as their escapes.
pub uninterp spec fn debug_text(text: Seq<char>) -> Seq<char>;

/// Formats `text` with `{:?}`, the `Debug` impl of `str` in `std`. The result
/// is a function of the characters alone; the contract gives it its name and
/// claims nothing else of it.
#[verifier::external_body]
pub(crate) fn debug_quoted(text: &str) -> (quoted: String)
    ensures
        quoted@ == debug_text(text@),
{
    format!("{:?}", text)
}

/// The two texts one after the other.
pub fn joined(head: &str, tail: &str) -> (text: String)
    ensures
        text@ == head@ + tail@,
{
    let mut text = head.to_owned();
    text.append(tail);
    text
}

/// The view of an optional text.
pub open spec fn optional_text(text: Option<String>) -> Option<Seq<char>> {
    match text {
        Some(t) => Some(t@),
        None => None,
    }
}

} // verus!
