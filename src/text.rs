use vstd::prelude::*;
use unicode_width::UnicodeWidthStr;

verus! {

/// Relies on `String::push`: appends one character at the end.
pub assume_specification[ String::push ](s: &mut String, ch: char)
    ensures
        final(s)@ == old(s)@.push(ch),
;

/// Relies on `String::pop`: removes and returns the last character, or returns
/// `None` and leaves the string alone when it is empty.
pub assume_specification[ String::pop ](s: &mut String) -> (r: Option<char>)
    ensures
        old(s)@.len() == 0 ==> r is None && final(s)@ == old(s)@,
        old(s)@.len() > 0 ==> r == Some(old(s)@.last()) && final(s)@ == old(s)@.drop_last(),
;

/// The number of terminal columns a string takes up.
pub uninterp spec fn display_width(s: Seq<char>) -> usize;

/// Relies on `unicode_width::UnicodeWidthStr::width`: the column count of a
/// string, which depends on its characters alone.
#[verifier::external_body]
fn width_of(s: &str) -> (r: usize)
    ensures
        r == display_width(s@),
{
    UnicodeWidthStr::width(s)
}

/// Where the cursor goes when the input text is `width` columns wide and the
/// input box's top-left corner is at (`x`, `y`): one column in and one line
/// down from the border, just past the text. `None` when that falls off the
/// `u16` grid.
pub open spec fn cursor_spec(x: u16, y: u16, width: usize) -> Option<(u16, u16)> {
    if x + width + 1 <= u16::MAX && y + 1 <= u16::MAX {
        Some(((x + width + 1) as u16, (y + 1) as u16))
    } else {
        None
    }
}

/// The cursor position past text of a given width; see `cursor_spec`.
pub fn cursor_after(x: u16, y: u16, width: usize) -> (r: Option<(u16, u16)>)
    ensures
        r == cursor_spec(x, y, width),
{
    if width >= u16::MAX as usize || y == u16::MAX {
        return None;
    }
    let w = width as u16;
    if x > u16::MAX - w - 1 {
        None
    } else {
        Some((x + w + 1, y + 1))
    }
}

/// The cursor position past `text` typed into an input box at (`x`, `y`).
pub fn cursor_past_text(x: u16, y: u16, text: &str) -> (r: Option<(u16, u16)>)
    ensures
        r == cursor_spec(x, y, display_width(text@)),
{
    let w = width_of(text);
    cursor_after(x, y, w)
}

} // verus!
