//! Searching and cutting text, for the output of other programs.

use vstd::prelude::*;
use crate::strings::chars_of;
use crate::strings::string_of_range;

verus! {

/// Whether `pat` stands in `s` at position `i`.
pub open spec fn matches_at(s: Seq<char>, pat: Seq<char>, i: int) -> bool {
    0 <= i && i + pat.len() <= s.len() && s.subrange(i, i + pat.len()) == pat
}

/// Whether `pat` stands somewhere in `s`.
pub open spec fn contains_text(s: Seq<char>, pat: Seq<char>) -> bool {
    exists|i: int| matches_at(s, pat, i)
}

/// Whether `i` is the first position at which `pat` stands in `s`.
pub open spec fn is_first_match(s: Seq<char>, pat: Seq<char>, i: int) -> bool {
    matches_at(s, pat, i) && forall|j: int| 0 <= j < i ==> !matches_at(s, pat, j)
}

/// The first position at which `pat` stands in `s`, where it stands there
/// at all.
pub open spec fn first_match(s: Seq<char>, pat: Seq<char>) -> int {
    choose|i: int| is_first_match(s, pat, i)
}

/// A first match is the only one.
pub proof fn lemma_first_match(s: Seq<char>, pat: Seq<char>, i: int)
    requires
        is_first_match(s, pat, i),
    ensures
        first_match(s, pat) == i,
        contains_text(s, pat),
{
    let k = first_match(s, pat);
    assert(is_first_match(s, pat, k));
    if k < i {
        assert(!matches_at(s, pat, k));
    } else if i < k {
        assert(!matches_at(s, pat, i));
    }
}

fn chars_match_at(s: &Vec<char>, pat: &Vec<char>, i: usize) -> (r: bool)
    requires
        i + pat@.len() <= s@.len(),
    ensures
        r == matches_at(s@, pat@, i as int),
{
    let mut k: usize = 0;
    while k < pat.len()
        invariant
            k <= pat.len(),
            i + pat.len() <= s.len(),
            forall|j: int| 0 <= j < k ==> s@[i + j] == pat@[j],
        decreases pat.len() - k,
    {
        if s[i + k] != pat[k] {
            assert(s@.subrange(i as int, i + pat@.len())[k as int] != pat@[k as int]);
            return false;
        }
        k += 1;
    }
    assert(s@.subrange(i as int, i + pat@.len()) =~= pat@);
    true
}

/// `s` without `prefix` at its start; nothing where `s` does not start
/// with `prefix`.
pub fn strip_prefix(s: &str, prefix: &str) -> (r: Option<String>)
    ensures
        match r {
            Some(rest) => s@ == prefix@ + rest@,
            None => !matches_at(s@, prefix@, 0),
        },
{
    let chars = chars_of(s);
    let pat = chars_of(prefix);
    if pat.len() <= chars.len() && chars_match_at(&chars, &pat, 0) {
        let rest = string_of_range(&chars, pat.len(), chars.len());
        assert(s@ =~= prefix@ + rest@);
        Some(rest)
    } else {
        None
    }
}

/// The first position in `s`, at or after `from`, at which `pat` stands.
pub fn find_chars(s: &Vec<char>, pat: &Vec<char>, from: usize) -> (r: Option<usize>)
    ensures
        match r {
            Some(i) => from <= i && matches_at(s@, pat@, i as int) && forall|j: int|
                from <= j < i ==> !matches_at(s@, pat@, j),
            None => forall|j: int| from <= j ==> !matches_at(s@, pat@, j),
        },
{
    if pat.len() > s.len() {
        return None;
    }
    let last = s.len() - pat.len();
    if from > last {
        return None;
    }
    let mut i: usize = from;
    loop
        invariant
            from <= i <= last,
            last == s.len() - pat.len(),
            forall|j: int| from <= j < i ==> !matches_at(s@, pat@, j),
        decreases last - i,
    {
        if chars_match_at(s, pat, i) {
            return Some(i);
        }
        if i == last {
            return None;
        }
        i += 1;
    }
}

/// Whether `pat` stands somewhere in `s`.
pub fn text_contains(s: &str, pat: &str) -> (r: bool)
    ensures
        r == contains_text(s@, pat@),
{
    let sc = chars_of(s);
    let pc = chars_of(pat);
    match find_chars(&sc, &pc, 0) {
        Some(i) => true,
        None => false,
    }
}

/// The position of the first `c` in `s` at or after `from`; the length of
/// `s` where there is none.
pub open spec fn char_position(s: Seq<char>, c: char, from: int) -> int
    decreases s.len() - from,
{
    if from < 0 || from >= s.len() {
        s.len() as int
    } else if s[from] == c {
        from
    } else {
        char_position(s, c, from + 1)
    }
}

/// Finds the first `c` in `s` at or after `from`.
pub fn find_char(s: &Vec<char>, c: char, from: usize) -> (r: usize)
    ensures
        r == char_position(s@, c, from as int),
        r <= s@.len(),
{
    let mut i: usize = from;
    while i < s.len()
        invariant
            from <= i,
            char_position(s@, c, from as int) == char_position(s@, c, i as int),
        decreases s.len() - i,
    {
        if s[i] == c {
            return i;
        }
        i += 1;
    }
    s.len()
}

/// `s` without the characters `c` at its end.
pub open spec fn without_trailing(s: Seq<char>, c: char) -> Seq<char>
    decreases s.len(),
{
    if s.len() > 0 && s.last() == c {
        without_trailing(s.drop_last(), c)
    } else {
        s
    }
}

/// Cuts the characters `c` from the end of `s`.
pub fn strip_trailing(s: &str, c: char) -> (r: String)
    ensures
        r@ == without_trailing(s@, c),
{
    let chars = chars_of(s);
    let mut end: usize = chars.len();
    assert(chars@.take(end as int) =~= chars@);
    while end > 0 && chars[end - 1] == c
        invariant
            end <= chars@.len(),
            without_trailing(chars@, c) == without_trailing(chars@.take(end as int), c),
        decreases end,
    {
        assert(chars@.take(end as int).drop_last() =~= chars@.take(end - 1));
        end -= 1;
    }
    assert(chars@.take(end as int) =~= chars@.subrange(0, end as int));
    string_of_range(&chars, 0, end)
}

/// The first `n` elements of `s`, or all of it where it is shorter.
pub open spec fn leading(s: Seq<Seq<char>>, n: nat) -> Seq<Seq<char>> {
    s.take(
        if n <= s.len() {
            n as int
        } else {
            s.len() as int
        },
    )
}

/// The first `n` elements of `list`, or all of it where it is shorter.
pub fn first_strings(list: &Vec<String>, n: usize) -> (r: Vec<String>)
    ensures
        r.deep_view() == leading(list.deep_view(), n as nat),
{
    let mut out: Vec<String> = Vec::new();
    let mut i: usize = 0;
    assert(out.deep_view() =~= list.deep_view().take(0));
    while i < list.len() && i < n
        invariant
            i <= list.len(),
            i <= n,
            out.deep_view() == list.deep_view().take(i as int),
        decreases list.len() - i,
    {
        let ghost before = out.deep_view();
        out.push(list[i].clone());
        assert(out.deep_view() =~= before.push(list.deep_view()[i as int]));
        assert(list.deep_view().take(i + 1) =~= before.push(list.deep_view()[i as int]));
        i += 1;
    }
    out
}

/// Whether `c` is white space: one of the characters with the Unicode
/// property `White_Space`.
pub open spec fn white_space(c: char) -> bool {
    ||| '\u{9}' <= c <= '\u{d}'
    ||| c == ' '
    ||| c == '\u{85}'
    ||| c == '\u{a0}'
    ||| c == '\u{1680}'
    ||| '\u{2000}' <= c <= '\u{200a}'
    ||| c == '\u{2028}'
    ||| c == '\u{2029}'
    ||| c == '\u{202f}'
    ||| c == '\u{205f}'
    ||| c == '\u{3000}'
}

/// Whether `c` is white space.
pub fn is_space(c: char) -> (r: bool)
    ensures
        r == white_space(c),
{
    ('\u{9}' <= c && c <= '\u{d}') || c == ' ' || c == '\u{85}' || c == '\u{a0}' || c == '\u{1680}'
        || ('\u{2000}' <= c && c <= '\u{200a}') || c == '\u{2028}' || c == '\u{2029}' || c
        == '\u{202f}' || c == '\u{205f}' || c == '\u{3000}'
}

/// `s` without the white space at its start.
pub open spec fn without_leading_space(s: Seq<char>) -> Seq<char>
    decreases s.len(),
{
    if s.len() > 0 && white_space(s[0]) {
        without_leading_space(s.drop_first())
    } else {
        s
    }
}

/// `s` without the white space at its end.
pub open spec fn without_trailing_space(s: Seq<char>) -> Seq<char>
    decreases s.len(),
{
    if s.len() > 0 && white_space(s.last()) {
        without_trailing_space(s.drop_last())
    } else {
        s
    }
}

/// `s` without the white space at its two ends.
pub open spec fn trimmed_text(s: Seq<char>) -> Seq<char> {
    without_trailing_space(without_leading_space(s))
}

/// Cuts the white space from the two ends of `s`.
pub fn trimmed(s: &str) -> (r: String)
    ensures
        r@ == trimmed_text(s@),
{
    let chars = chars_of(s);
    let mut start: usize = 0;
    assert(chars@.skip(0) =~= chars@);
    while start < chars.len() && is_space(chars[start])
        invariant
            start <= chars.len(),
            without_leading_space(chars@) == without_leading_space(chars@.skip(start as int)),
        decreases chars.len() - start,
    {
        assert(chars@.skip(start as int).drop_first() =~= chars@.skip(start + 1));
        start += 1;
    }
    let ghost rest = chars@.skip(start as int);
    assert(without_leading_space(chars@) == rest);
    let mut end: usize = chars.len();
    assert(rest.take(end - start) =~= rest);
    while end > start && is_space(chars[end - 1])
        invariant
            start <= end <= chars.len(),
            rest == chars@.skip(start as int),
            without_trailing_space(rest) == without_trailing_space(rest.take(end - start)),
        decreases end,
    {
        assert(rest.take(end - start).drop_last() =~= rest.take(end - start - 1));
        assert(rest.take(end - start).last() == chars@[end - 1]);
        end -= 1;
    }
    assert(rest.take(end - start) =~= chars@.subrange(start as int, end as int));
    assert(end > start ==> rest.take(end - start).last() == chars@[end - 1]);
    string_of_range(&chars, start, end)
}

/// A line without the carriage return at its end, if it has one.
pub open spec fn without_cr(line: Seq<char>) -> Seq<char> {
    if line.len() > 0 && line.last() == '\r' {
        line.drop_last()
    } else {
        line
    }
}

/// Reading `s` from the left: the lines already ended by a line feed, each
/// without its line ending, and what follows the last line feed.
pub open spec fn line_scan(s: Seq<char>) -> (Seq<Seq<char>>, Seq<char>)
    decreases s.len(),
{
    if s.len() == 0 {
        (Seq::empty(), Seq::empty())
    } else {
        let before = line_scan(s.drop_last());
        if s.last() == '\n' {
            (before.0.push(without_cr(before.1)), Seq::empty())
        } else {
            (before.0, before.1.push(s.last()))
        }
    }
}

/// The lines of `s`: it is cut at each line feed, a carriage return
/// before the line feed goes with it, and what follows the last line feed
/// is a line of its own unless it is empty.
pub open spec fn text_lines(s: Seq<char>) -> Seq<Seq<char>> {
    let (done, rest) = line_scan(s);
    if rest.len() > 0 {
        done.push(rest)
    } else {
        done
    }
}

fn push_string(list: &mut Vec<String>, chars: &Vec<char>, to: usize)
    requires
        to <= chars.len(),
    ensures
        final(list).deep_view() == old(list).deep_view().push(chars@.take(to as int)),
{
    let ghost before = list.deep_view();
    let line = string_of_range(chars, 0, to);
    assert(chars@.subrange(0, to as int) =~= chars@.take(to as int));
    list.push(line);
    assert(list.deep_view() =~= before.push(chars@.take(to as int)));
}

/// The lines of `s`.
pub fn lines_of(s: &str) -> (r: Vec<String>)
    ensures
        r.deep_view() == text_lines(s@),
{
    let chars = chars_of(s);
    let mut lines: Vec<String> = Vec::new();
    let mut piece: Vec<char> = Vec::new();
    let mut i: usize = 0;
    assert(chars@.take(0) =~= Seq::<char>::empty());
    assert(lines.deep_view() =~= line_scan(chars@.take(0)).0);
    while i < chars.len()
        invariant
            i <= chars.len(),
            lines.deep_view() == line_scan(chars@.take(i as int)).0,
            piece@ == line_scan(chars@.take(i as int)).1,
        decreases chars.len() - i,
    {
        assert(chars@.take(i + 1).drop_last() =~= chars@.take(i as int));
        assert(chars@.take(i + 1).last() == chars@[i as int]);
        if chars[i] == '\n' {
            let to = if piece.len() > 0 && piece[piece.len() - 1] == '\r' {
                piece.len() - 1
            } else {
                piece.len()
            };
            assert(piece@.take(to as int) =~= without_cr(piece@));
            push_string(&mut lines, &piece, to);
            piece = Vec::new();
        } else {
            piece.push(chars[i]);
        }
        i += 1;
    }
    assert(chars@.take(chars.len() as int) =~= chars@);
    if piece.len() > 0 {
        assert(piece@.take(piece.len() as int) =~= piece@);
        push_string(&mut lines, &piece, piece.len());
    }
    lines
}

/// `done` with `piece` appended unless `piece` is empty.
pub open spec fn with_field(done: Seq<Seq<char>>, piece: Seq<char>) -> Seq<Seq<char>> {
    if piece.len() > 0 {
        done.push(piece)
    } else {
        done
    }
}

/// Reading `s` from the left: the fields already ended by white space, and
/// what follows the last white space.
pub open spec fn field_scan(s: Seq<char>) -> (Seq<Seq<char>>, Seq<char>)
    decreases s.len(),
{
    if s.len() == 0 {
        (Seq::empty(), Seq::empty())
    } else {
        let before = field_scan(s.drop_last());
        if white_space(s.last()) {
            (with_field(before.0, before.1), Seq::empty())
        } else {
            (before.0, before.1.push(s.last()))
        }
    }
}

/// The fields of `s`: its pieces between white space, without the empty
/// ones.
pub open spec fn whitespace_fields(s: Seq<char>) -> Seq<Seq<char>> {
    with_field(field_scan(s).0, field_scan(s).1)
}

/// The fields of `s`.
pub fn fields_of(s: &str) -> (r: Vec<String>)
    ensures
        r.deep_view() == whitespace_fields(s@),
{
    let chars = chars_of(s);
    let mut fields: Vec<String> = Vec::new();
    let mut piece: Vec<char> = Vec::new();
    let mut i: usize = 0;
    assert(chars@.take(0) =~= Seq::<char>::empty());
    assert(fields.deep_view() =~= field_scan(chars@.take(0)).0);
    while i < chars.len()
        invariant
            i <= chars.len(),
            fields.deep_view() == field_scan(chars@.take(i as int)).0,
            piece@ == field_scan(chars@.take(i as int)).1,
        decreases chars.len() - i,
    {
        assert(chars@.take(i + 1).drop_last() =~= chars@.take(i as int));
        assert(chars@.take(i + 1).last() == chars@[i as int]);
        if is_space(chars[i]) {
            if piece.len() > 0 {
                assert(piece@.take(piece.len() as int) =~= piece@);
                push_string(&mut fields, &piece, piece.len());
            }
            piece = Vec::new();
        } else {
            piece.push(chars[i]);
        }
        i += 1;
    }
    assert(chars@.take(chars.len() as int) =~= chars@);
    if piece.len() > 0 {
        assert(piece@.take(piece.len() as int) =~= piece@);
        push_string(&mut fields, &piece, piece.len());
    }
    fields
}

/// Whether `c` is a decimal digit.
pub open spec fn is_digit(c: char) -> bool {
    '0' <= c && c <= '9'
}

/// The number that the digit `c` writes.
pub open spec fn digit_value(c: char) -> nat {
    if c == '1' {
        1
    } else if c == '2' {
        2
    } else if c == '3' {
        3
    } else if c == '4' {
        4
    } else if c == '5' {
        5
    } else if c == '6' {
        6
    } else if c == '7' {
        7
    } else if c == '8' {
        8
    } else if c == '9' {
        9
    } else {
        0
    }
}

/// The number that the digits `s` write in decimal.
pub open spec fn digits_value(s: Seq<char>) -> nat
    decreases s.len(),
{
    if s.len() == 0 {
        0
    } else {
        digits_value(s.drop_last()) * 10 + digit_value(s.last())
    }
}

/// Whether `s` is made of decimal digits, at least one.
pub open spec fn is_number(s: Seq<char>) -> bool {
    s.len() > 0 && forall|i: int| 0 <= i < s.len() ==> is_digit(s[i])
}

/// The number that `s` writes: digits, with `+` or `-` in front of them
/// or neither, and nothing else. Nothing is written by any other text, or
/// by a number beyond the range of `i32`.
pub open spec fn parsed_i32(s: Seq<char>) -> Option<i32> {
    let negative = s.len() > 0 && s[0] == '-';
    let digits = if s.len() > 0 && (s[0] == '-' || s[0] == '+') {
        s.drop_first()
    } else {
        s
    };
    let value = if negative {
        -(digits_value(digits) as int)
    } else {
        digits_value(digits) as int
    };
    if is_number(digits) && -0x8000_0000 <= value <= 0x7fff_ffff {
        Some(value as i32)
    } else {
        None
    }
}

fn value_of_digit(c: char) -> (d: u64)
    requires
        is_digit(c),
    ensures
        d == digit_value(c),
        d < 10,
{
    if c == '1' {
        1
    } else if c == '2' {
        2
    } else if c == '3' {
        3
    } else if c == '4' {
        4
    } else if c == '5' {
        5
    } else if c == '6' {
        6
    } else if c == '7' {
        7
    } else if c == '8' {
        8
    } else if c == '9' {
        9
    } else {
        0
    }
}

/// Reads the number that `s` writes.
pub fn parse_i32(s: &str) -> (r: Option<i32>)
    ensures
        r == parsed_i32(s@),
{
    let chars = chars_of(s);
    let negative = chars.len() > 0 && chars[0] == '-';
    let start: usize = if chars.len() > 0 && (chars[0] == '-' || chars[0] == '+') {
        1
    } else {
        0
    };
    let ghost digits = chars@.skip(start as int);
    assert(start == 1 ==> digits =~= s@.drop_first());
    assert(start == 0 ==> digits =~= s@);
    if start == chars.len() {
        return None;
    }
    let mut value: u64 = 0;
    let mut beyond = false;
    let mut i: usize = start;
    assert(digits.take(0) =~= Seq::<char>::empty());
    while i < chars.len()
        invariant
            start <= i <= chars.len(),
            chars@ == s@,
            digits == chars@.skip(start as int),
            digits == if s@.len() > 0 && (s@[0] == '-' || s@[0] == '+') {
                s@.drop_first()
            } else {
                s@
            },
            forall|j: int| 0 <= j < i - start ==> is_digit(digits[j]),
            !beyond ==> value == digits_value(digits.take(i - start)) && value <= 0x8000_0000,
            beyond ==> digits_value(digits.take(i - start)) > 0x8000_0000,
        decreases chars.len() - i,
    {
        let c = chars[i];
        assert(digits[i - start] == c);
        if !('0' <= c && c <= '9') {
            assert(!is_digit(digits[i - start]));
            return None;
        }
        assert(digits.take(i - start + 1).drop_last() =~= digits.take(i - start));
        assert(digits.take(i - start + 1).last() == c);
        if !beyond {
            value = value * 10 + value_of_digit(c);
            if value > 0x8000_0000 {
                beyond = true;
            }
        }
        i += 1;
    }
    assert(digits.take(chars.len() - start) =~= digits);
    if beyond {
        None
    } else if negative {
        let wide: i64 = 0 - (value as i64);
        Some(wide as i32)
    } else if value <= 0x7fff_ffff {
        Some(value as i32)
    } else {
        None
    }
}

/// What formatting `s` with `{:?}` gives: `s` in double quotes, with
/// escapes.
pub uninterp spec fn debug_text(s: Seq<char>) -> Seq<char>;

/// `format!("{:?}", s)`: the text in double quotes with its special
/// characters escaped. The result is named, not stated.
#[verifier::external_body]
pub(crate) fn debug_quoted(s: &str) -> (r: String)
    ensures
        r@ == debug_text(s@),
{
    format!("{:?}", s)
}

/// What `str::to_lowercase` gives for `s`.
pub uninterp spec fn lowercase_text(s: Seq<char>) -> Seq<char>;

/// `str::to_lowercase`: the text with every character replaced by its
/// lowercase form, as Unicode defines it. The result is named, not stated.
#[verifier::external_body]
pub(crate) fn lowercase(s: &str) -> (r: String)
    ensures
        r@ == lowercase_text(s@),
{
    s.to_lowercase()
}

} // verus!
