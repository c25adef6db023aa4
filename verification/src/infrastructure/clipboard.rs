//! What of a text goes to the clipboard.

use crate::util::text::{chars_of, string_of_range};
use vstd::prelude::*;

verus! {

/// End of the text that is left of `s[..to]` once trailing line feeds are
/// dropped.
pub open spec fn drop_trailing_newlines(s: Seq<char>, to: int) -> int
    decreases to,
{
    if 0 < to <= s.len() && s[to - 1] == '\n' {
        drop_trailing_newlines(s, to - 1)
    } else {
        to
    }
}

/// A text without the line feeds at its end.
pub open spec fn clipboard_text_of(text: Seq<char>) -> Seq<char> {
    text.subrange(0, drop_trailing_newlines(text, text.len() as int))
}

/// The text that is copied for `text`: `text` without the line feeds at its
/// end.
pub fn clipboard_text(text: &str) -> (clean: String)
    ensures
        clean@ == clipboard_text_of(text@),
{
    let chars = chars_of(text);
    let mut end: usize = chars.len();
    while end > 0 && chars[end - 1] == '\n'
        invariant
            end <= chars.len(),
            drop_trailing_newlines(chars@, chars.len() as int) == drop_trailing_newlines(
                chars@,
                end as int,
            ),
        decreases end,
    {
        end -= 1;
    }
    string_of_range(&chars, 0, end)
}

} // verus!
