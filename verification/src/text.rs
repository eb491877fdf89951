//! Cursor and truncation helpers for single-line text.

use vstd::prelude::*;
use crate::strings::chars_of;
use crate::strings::string_of_range;

verus! {

/// The smaller of two numbers.
pub open spec fn smaller(a: int, b: int) -> int {
    if a <= b {
        a
    } else {
        b
    }
}

/// `text` cut to `max_width` characters: itself where it fits, otherwise
/// its first `max_width - 3` characters (none where that is negative) and
/// three dots.
pub open spec fn truncated(text: Seq<char>, max_width: nat) -> Seq<char> {
    if text.len() <= max_width {
        text
    } else {
        text.take(
            if max_width >= 3 {
                max_width - 3
            } else {
                0
            },
        ) + "..."@
    }
}

/// The column of the cursor: its position, held within the text and
/// within the width of the area.
pub fn calculate_cursor_x(text: &str, cursor_pos: usize, area_width: u16) -> (x: u16)
    ensures
        x as int == smaller(smaller(cursor_pos as int, text@.len() as int), area_width as int),
{
    let clamped = clamp_cursor_position(text, cursor_pos);
    if clamped <= area_width as usize {
        clamped as u16
    } else {
        area_width
    }
}

/// The cursor position held within the text.
pub fn clamp_cursor_position(text: &str, pos: usize) -> (r: usize)
    ensures
        r as int == smaller(pos as int, text@.len() as int),
{
    let n = text.unicode_len();
    if pos <= n {
        pos
    } else {
        n
    }
}

/// Cuts `text` to `max_width` characters, with three dots where something
/// was cut.
pub fn truncate_with_ellipsis(text: &str, max_width: usize) -> (r: String)
    ensures
        r@ == truncated(text@, max_width as nat),
{
    let chars = chars_of(text);
    if chars.len() <= max_width {
        text.to_owned()
    } else {
        let keep = if max_width >= 3 {
            max_width - 3
        } else {
            0
        };
        let mut r = string_of_range(&chars, 0, keep);
        r.append("...");
        assert(chars@.subrange(0, keep as int) =~= text@.take(keep as int));
        r
    }
}

} // verus!
