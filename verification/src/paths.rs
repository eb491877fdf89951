//! Slash-separated paths, compared by their components.
//!
//! A path is text. Its components are what lies between the slashes, read as
//! a Unix file system reads them: empty pieces and `.` pieces count for
//! nothing, except that a leading `/` and a leading `./` each stand as a
//! component of their own. Two paths are the same when their components are.

use vstd::prelude::*;
use crate::strings::chars_of;
use crate::strings::join2;
use crate::strings::join3;

verus! {

/// Whether a piece between two slashes is a component: it is neither empty
/// nor `.`.
pub open spec fn keeps(piece: Seq<char>) -> bool {
    piece.len() > 0 && piece != seq!['.']
}

/// `done` with `piece` appended where `piece` counts as a component.
pub open spec fn close_piece(done: Seq<Seq<char>>, piece: Seq<char>) -> Seq<Seq<char>> {
    if keeps(piece) {
        done.push(piece)
    } else {
        done
    }
}

/// Reading `s` from the left: the components already closed by a slash, and
/// the piece after the last slash.
pub open spec fn scan(s: Seq<char>) -> (Seq<Seq<char>>, Seq<char>)
    decreases s.len(),
{
    if s.len() == 0 {
        (Seq::empty(), Seq::empty())
    } else {
        let before = scan(s.drop_last());
        if s.last() == '/' {
            (close_piece(before.0, before.1), Seq::empty())
        } else {
            (before.0, before.1.push(s.last()))
        }
    }
}

/// The components of `s` that come from the pieces between slashes.
pub open spec fn named_parts(s: Seq<char>) -> Seq<Seq<char>> {
    close_piece(scan(s).0, scan(s).1)
}

/// The component that stands for the start of `s`: `/` for a path from the
/// root, `.` for the path `.` and for one that begins with `./`, none
/// otherwise.
pub open spec fn leading_mark(s: Seq<char>) -> Seq<Seq<char>> {
    if s.len() > 0 && s[0] == '/' {
        seq![seq!['/']]
    } else if s == seq!['.'] || (s.len() >= 2 && s[0] == '.' && s[1] == '/') {
        seq![seq!['.']]
    } else {
        Seq::empty()
    }
}

/// The components of the path `s`.
pub open spec fn components(s: Seq<char>) -> Seq<Seq<char>> {
    leading_mark(s) + named_parts(s)
}

/// Whether the components of `base` are the first components of `path`.
pub open spec fn path_starts_with(path: Seq<char>, base: Seq<char>) -> bool {
    components(base).is_prefix_of(components(path))
}

/// Whether the components of `child` are the last components of `path`.
pub open spec fn path_ends_with(path: Seq<char>, child: Seq<char>) -> bool {
    components(child).is_suffix_of(components(path))
}

/// Whether two paths have the same components.
pub open spec fn same_path(a: Seq<char>, b: Seq<char>) -> bool {
    components(a) == components(b)
}

/// Whether `path` lies below `dir`: it starts with `dir` and is not `dir`.
pub open spec fn strictly_inside(path: Seq<char>, dir: Seq<char>) -> bool {
    path_starts_with(path, dir) && !same_path(path, dir)
}

/// `rel` placed under `base`: `rel` alone where it starts at the root,
/// otherwise `base`, a slash unless `base` is empty or ends in one, and `rel`.
pub open spec fn joined(base: Seq<char>, rel: Seq<char>) -> Seq<char> {
    if rel.len() > 0 && rel[0] == '/' {
        rel
    } else if base.len() == 0 || base.last() == '/' {
        base + rel
    } else {
        base + seq!['/'] + rel
    }
}

/// The components held by `parts`, each as its sequence of characters.
pub open spec fn part_views(parts: Seq<Vec<char>>) -> Seq<Seq<char>> {
    Seq::new(parts.len(), |i: int| parts[i]@)
}

fn chars_equal(a: &Vec<char>, b: &Vec<char>) -> (r: bool)
    ensures
        r == (a@ == b@),
{
    if a.len() != b.len() {
        return false;
    }
    let mut i: usize = 0;
    while i < a.len()
        invariant
            i <= a.len(),
            a.len() == b.len(),
            forall|j: int| 0 <= j < i ==> a@[j] == b@[j],
        decreases a.len() - i,
    {
        if a[i] != b[i] {
            return false;
        }
        i += 1;
    }
    assert(a@ =~= b@);
    true
}

fn is_dot(piece: &Vec<char>) -> (r: bool)
    ensures
        r == (piece@ == seq!['.']),
{
    if piece.len() == 1 && piece[0] == '.' {
        assert(piece@ =~= seq!['.']);
        true
    } else {
        false
    }
}

proof fn scan_step(s: Seq<char>, i: int)
    requires
        0 <= i < s.len(),
    ensures
        scan(s.take(i + 1)) == if s[i] == '/' {
            (close_piece(scan(s.take(i)).0, scan(s.take(i)).1), Seq::<char>::empty())
        } else {
            (scan(s.take(i)).0, scan(s.take(i)).1.push(s[i]))
        },
{
    assert(s.take(i + 1).drop_last() =~= s.take(i));
    assert(s.take(i + 1).last() == s[i]);
}

/// Splits `path` into its components.
pub fn split_components(path: &str) -> (parts: Vec<Vec<char>>)
    ensures
        part_views(parts@) == components(path@),
{
    let chars = chars_of(path);
    let mut parts: Vec<Vec<char>> = Vec::new();
    if chars.len() > 0 && chars[0] == '/' {
        let mut mark: Vec<char> = Vec::new();
        mark.push('/');
        assert(mark@ =~= seq!['/']);
        parts.push(mark);
    } else if is_dot(&chars) || (chars.len() >= 2 && chars[0] == '.' && chars[1] == '/') {
        let mut mark: Vec<char> = Vec::new();
        mark.push('.');
        assert(mark@ =~= seq!['.']);
        parts.push(mark);
    }
    assert(part_views(parts@) =~= leading_mark(path@));
    let mut piece: Vec<char> = Vec::new();
    let mut i: usize = 0;
    assert(chars@.take(0) =~= Seq::<char>::empty());
    assert(part_views(parts@) =~= leading_mark(path@) + scan(chars@.take(0)).0);
    while i < chars.len()
        invariant
            i <= chars.len(),
            chars@ == path@,
            part_views(parts@) == leading_mark(path@) + scan(chars@.take(i as int)).0,
            piece@ == scan(chars@.take(i as int)).1,
        decreases chars.len() - i,
    {
        proof {
            scan_step(chars@, i as int);
        }
        let ghost before = part_views(parts@);
        if chars[i] == '/' {
            if piece.len() > 0 && !is_dot(&piece) {
                parts.push(piece);
                assert(part_views(parts@) =~= before.push(piece@));
            }
            piece = Vec::new();
        } else {
            piece.push(chars[i]);
        }
        assert(part_views(parts@) =~= leading_mark(path@) + scan(chars@.take(i + 1)).0);
        i += 1;
    }
    assert(chars@.take(chars.len() as int) =~= chars@);
    let ghost before = part_views(parts@);
    if piece.len() > 0 && !is_dot(&piece) {
        parts.push(piece);
        assert(part_views(parts@) =~= before.push(piece@));
    }
    assert(part_views(parts@) =~= components(path@));
    parts
}

fn parts_match(a: &Vec<Vec<char>>, b: &Vec<Vec<char>>, offset: usize) -> (r: bool)
    requires
        offset + a.len() <= b.len(),
    ensures
        r == (part_views(a@) == part_views(b@).subrange(offset as int, offset + a.len())),
{
    let mut i: usize = 0;
    while i < a.len()
        invariant
            i <= a.len(),
            offset + a.len() <= b.len(),
            forall|j: int| 0 <= j < i ==> part_views(a@)[j] == part_views(b@)[offset + j],
        decreases a.len() - i,
    {
        if !chars_equal(&a[i], &b[offset + i]) {
            assert(part_views(a@)[i as int] != part_views(b@).subrange(
                offset as int,
                offset + a.len(),
            )[i as int]);
            return false;
        }
        i += 1;
    }
    assert(part_views(a@) =~= part_views(b@).subrange(offset as int, offset + a.len()));
    true
}

/// Whether `path` starts with `base`, component by component.
pub fn starts_with(path: &str, base: &str) -> (r: bool)
    ensures
        r == path_starts_with(path@, base@),
{
    let p = split_components(path);
    let b = split_components(base);
    if b.len() > p.len() {
        return false;
    }
    parts_match(&b, &p, 0)
}

/// Whether `path` ends with `child`, component by component.
pub fn ends_with(path: &str, child: &str) -> (r: bool)
    ensures
        r == path_ends_with(path@, child@),
{
    let p = split_components(path);
    let c = split_components(child);
    if c.len() > p.len() {
        return false;
    }
    parts_match(&c, &p, p.len() - c.len())
}

/// Whether `a` and `b` have the same components.
pub fn is_same_path(a: &str, b: &str) -> (r: bool)
    ensures
        r == same_path(a@, b@),
{
    let p = split_components(a);
    let q = split_components(b);
    if p.len() != q.len() {
        assert(part_views(p@).len() != part_views(q@).len());
        return false;
    }
    let r = parts_match(&p, &q, 0);
    assert(part_views(q@).subrange(0, q.len() as int) =~= part_views(q@));
    r
}

/// Whether `path` lies below `dir`.
pub fn is_strictly_inside(path: &str, dir: &str) -> (r: bool)
    ensures
        r == strictly_inside(path@, dir@),
{
    starts_with(path, dir) && !is_same_path(path, dir)
}

/// The number of components of `path`.
pub fn component_count(path: &str) -> (n: usize)
    ensures
        n == components(path@).len(),
{
    split_components(path).len()
}

/// Places `rel` under `base`.
pub fn join(base: &str, rel: &str) -> (r: String)
    ensures
        r@ == joined(base@, rel@),
{
    let rel_chars = chars_of(rel);
    if rel_chars.len() > 0 && rel_chars[0] == '/' {
        let r = rel.to_owned();
        return r;
    }
    let base_chars = chars_of(base);
    if base_chars.len() == 0 || base_chars[base_chars.len() - 1] == '/' {
        join2(base, rel)
    } else {
        proof {
            reveal_strlit("/");
            assert("/"@ =~= seq!['/']);
        }
        join3(base, "/", rel)
    }
}

} // verus!
