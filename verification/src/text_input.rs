//! Editing a line of text at a cursor. The cursor counts characters.

use vstd::prelude::*;
use crate::strings::chars_of;
use crate::strings::push_char;
use crate::strings::string_of_range;
use crate::text::smaller;

verus! {

/// Whether a character can be typed into a line: it is ASCII and no
/// control character.
pub open spec fn is_typable(c: char) -> bool {
    ' ' <= c && c <= '~'
}

/// The line `text` with `c` put in at the cursor, or at the end where the
/// cursor lies beyond it.
pub open spec fn with_char(text: Seq<char>, cursor: int, c: char) -> Seq<char> {
    let at = smaller(cursor, text.len() as int);
    text.take(at) + seq![c] + text.skip(at)
}

/// The line `text` without the character at position `at`.
pub open spec fn without_char(text: Seq<char>, at: int) -> Seq<char> {
    text.take(at) + text.skip(at + 1)
}

/// A key that moves the cursor, or any other key.
#[derive(Debug, Clone, Copy, PartialEq, Eq, Structural)]
pub enum CursorKey {
    Left,
    Right,
    Home,
    End,
    /// A key that does not move the cursor.
    Other,
}

/// Where the cursor stands after `key` in a line of `len` characters.
pub open spec fn moved_cursor(len: int, cursor: int, key: CursorKey) -> int {
    match key {
        CursorKey::Left => if cursor > 0 {
            cursor - 1
        } else {
            cursor
        },
        CursorKey::Right => if cursor < len {
            cursor + 1
        } else {
            cursor
        },
        CursorKey::Home => 0,
        CursorKey::End => len,
        CursorKey::Other => cursor,
    }
}

fn is_typable_char(c: char) -> (r: bool)
    ensures
        r == is_typable(c),
{
    ' ' <= c && c <= '~'
}

/// Types `c` at the cursor and moves the cursor behind it. A character
/// that cannot be typed changes nothing.
pub fn handle_char_insertion(text: &mut String, cursor_pos: &mut usize, c: char)
    requires
        *old(cursor_pos) < usize::MAX,
    ensures
        is_typable(c) ==> final(text)@ == with_char(old(text)@, *old(cursor_pos) as int, c)
            && *final(cursor_pos) as int == smaller(
            *old(cursor_pos) + 1,
            final(text)@.len() as int,
        ),
        !is_typable(c) ==> final(text)@ == old(text)@ && *final(cursor_pos) == *old(cursor_pos),
{
    if is_typable_char(c) {
        let chars = chars_of(text.as_str());
        let at = if *cursor_pos <= chars.len() {
            *cursor_pos
        } else {
            chars.len()
        };
        let mut r = string_of_range(&chars, 0, at);
        push_char(&mut r, c);
        r.append(string_of_range(&chars, at, chars.len()).as_str());
        assert(chars@.subrange(0, at as int) =~= old(text)@.take(at as int));
        assert(chars@.subrange(at as int, chars.len() as int) =~= old(text)@.skip(at as int));
        assert(r@ =~= with_char(old(text)@, *old(cursor_pos) as int, c));
        let n = r.as_str().unicode_len();
        *text = r;
        let moved = *cursor_pos + 1;
        *cursor_pos = if moved <= n {
            moved
        } else {
            n
        };
    }
}

/// Moves the cursor by `key`: one step left or right within the line, to
/// its start, or to its end.
pub fn handle_cursor_movement(text: &str, cursor_pos: &mut usize, key: CursorKey)
    ensures
        *final(cursor_pos) as int == moved_cursor(
            text@.len() as int,
            *old(cursor_pos) as int,
            key,
        ),
{
    match key {
        CursorKey::Left => {
            if *cursor_pos > 0 {
                *cursor_pos -= 1;
            }
        },
        CursorKey::Right => {
            let char_count = text.unicode_len();
            if *cursor_pos < char_count {
                *cursor_pos += 1;
            }
        },
        CursorKey::Home => {
            *cursor_pos = 0;
        },
        CursorKey::End => {
            *cursor_pos = text.unicode_len();
        },
        CursorKey::Other => {},
    }
}

fn remove_char(text: &mut String, at: usize)
    ensures
        (at as int) < old(text)@.len() ==> final(text)@ == without_char(old(text)@, at as int),
        (at as int) >= old(text)@.len() ==> final(text)@ == old(text)@,
{
    let chars = chars_of(text.as_str());
    if at < chars.len() {
        let mut r = string_of_range(&chars, 0, at);
        r.append(string_of_range(&chars, at + 1, chars.len()).as_str());
        assert(chars@.subrange(0, at as int) =~= old(text)@.take(at as int));
        assert(chars@.subrange(at + 1, chars.len() as int) =~= old(text)@.skip(at + 1));
        *text = r;
    }
}

/// Deletes the character before the cursor and moves the cursor one step
/// left. At the start of the line nothing changes; with the cursor beyond
/// the end only the cursor moves.
pub fn handle_backspace(text: &mut String, cursor_pos: &mut usize)
    ensures
        *old(cursor_pos) == 0 ==> final(text)@ == old(text)@ && *final(cursor_pos) == 0,
        *old(cursor_pos) > 0 ==> *final(cursor_pos) == *old(cursor_pos) - 1 && final(text)@ == (if (
        *old(cursor_pos) as int) <= old(text)@.len() {
            without_char(old(text)@, *old(cursor_pos) - 1)
        } else {
            old(text)@
        }),
{
    if *cursor_pos > 0 {
        remove_char(text, *cursor_pos - 1);
        *cursor_pos -= 1;
    }
}

/// Deletes the character at the cursor. At the end of the line nothing
/// changes.
pub fn handle_delete(text: &mut String, cursor_pos: &mut usize)
    ensures
        *final(cursor_pos) == *old(cursor_pos),
        final(text)@ == (if (*old(cursor_pos) as int) < old(text)@.len() {
            without_char(old(text)@, *old(cursor_pos) as int)
        } else {
            old(text)@
        }),
{
    remove_char(text, *cursor_pos);
}

} // verus!
