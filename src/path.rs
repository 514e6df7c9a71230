//! File extensions of target paths, read as std reads a Windows path: a
//! prefix (`C:`, `\\server\share`, `\\.\device`, `\\?\...`) is not part of
//! the file name, `/` and `\` both separate components (only `\` after a
//! verbatim prefix), empty and `.` components are skipped, and a final `..`
//! names no file.
use vstd::prelude::*;
use vstd::string::*;

verus! {

/// Whether `c` separates components; after a verbatim prefix only `\` does.
pub open spec fn is_separator(verbatim: bool, c: char) -> bool {
    if verbatim {
        c == '\\'
    } else {
        c == '/' || c == '\\'
    }
}

pub open spec fn is_ascii_letter(c: char) -> bool {
    ('a' <= c && c <= 'z') || ('A' <= c && c <= 'Z')
}

/// Index of the first separator in `p` at or after `i`, or `p.len()`.
pub open spec fn next_separator(p: Seq<char>, i: int, verbatim: bool) -> int
    decreases p.len() - i,
{
    if i >= p.len() {
        p.len() as int
    } else if is_separator(verbatim, p[i]) {
        i
    } else {
        next_separator(p, i + 1, verbatim)
    }
}

/// Index just past the separator at `s`, or `p.len()` where there is none.
pub open spec fn skip_separator(p: Seq<char>, s: int) -> int {
    if s < p.len() {
        s + 1
    } else {
        p.len() as int
    }
}

/// Length of the prefix of `p`, and whether that prefix is verbatim.
pub open spec fn prefix_of(p: Seq<char>) -> (int, bool) {
    if p.len() >= 2 && is_separator(false, p[0]) && is_separator(false, p[1]) {
        if p.len() >= 4 && p[0] == '\\' && p[1] == '\\' && p[2] == '?' && p[3] == '\\' {
            if p.len() >= 8 && p[4] == 'U' && p[5] == 'N' && p[6] == 'C' && is_separator(
                false,
                p[7],
            ) {
                // \\?\UNC\server\share
                let s1 = next_separator(p, 8, true);
                let a = skip_separator(p, s1);
                let s2 = next_separator(p, a, true);
                if s2 > a {
                    (s2, true)
                } else {
                    (s1, true)
                }
            } else if p.len() >= 6 && is_ascii_letter(p[4]) && p[5] == ':' && (p.len() == 6
                || p[6] == '\\') {
                // \\?\C:
                (6, true)
            } else {
                // \\?\prefix
                (next_separator(p, 4, true), true)
            }
        } else if p.len() >= 4 && p[2] == '.' && is_separator(false, p[3]) {
            // \\.\device
            (next_separator(p, 4, false), false)
        } else {
            // \\server\share, where both are non-empty
            let s1 = next_separator(p, 2, false);
            let a = skip_separator(p, s1);
            let s2 = next_separator(p, a, false);
            if s1 > 2 && s2 > a {
                (s2, false)
            } else {
                (0, false)
            }
        }
    } else if p.len() >= 2 && is_ascii_letter(p[0]) && p[1] == ':' {
        (2, false)
    } else {
        (0, false)
    }
}

/// Index at which the last component of `s` begins: just past its last
/// separator, or 0 where it holds none.
pub open spec fn component_start(s: Seq<char>, verbatim: bool) -> int
    decreases s.len(),
{
    if s.len() == 0 {
        0
    } else if is_separator(verbatim, s.last()) {
        s.len() as int
    } else {
        component_start(s.drop_last(), verbatim)
    }
}

/// Whether a component is dropped when a path is read: an empty one, and
/// `.` but after a verbatim prefix.
pub open spec fn is_skipped(c: Seq<char>, verbatim: bool) -> bool {
    c.len() == 0 || (!verbatim && c == seq!['.'])
}

/// The last component of `s` that is not skipped, if any.
pub open spec fn last_component(s: Seq<char>, verbatim: bool) -> Option<Seq<char>>
    decreases s.len(),
{
    let st = component_start(s, verbatim);
    let c = s.subrange(st, s.len() as int);
    if is_skipped(c, verbatim) {
        if st <= 0 || st > s.len() {
            None
        } else {
            last_component(s.subrange(0, st - 1), verbatim)
        }
    } else {
        Some(c)
    }
}

/// The file name of the path `p`: its last component, where that is
/// neither `.` nor `..`.
pub open spec fn file_name(p: Seq<char>) -> Option<Seq<char>> {
    let (n, verbatim) = prefix_of(p);
    match last_component(p.subrange(n, p.len() as int), verbatim) {
        Some(c) => if c == seq!['.'] || c == seq!['.', '.'] {
            None
        } else {
            Some(c)
        },
        None => None,
    }
}

/// Index of the last `.` in `n`, if any.
pub open spec fn last_dot(n: Seq<char>) -> Option<int>
    decreases n.len(),
{
    if n.len() == 0 {
        None
    } else if n.last() == '.' {
        Some(n.len() - 1)
    } else {
        last_dot(n.drop_last())
    }
}

/// The extension of the path `p`: what follows the last `.` of its file
/// name, where that dot is not the name's first character.
pub open spec fn extension_of(p: Seq<char>) -> Option<Seq<char>> {
    match file_name(p) {
        Some(n) => match last_dot(n) {
            Some(i) => if i > 0 {
                Some(n.subrange(i + 1, n.len() as int))
            } else {
                None
            },
            None => None,
        },
        None => None,
    }
}

fn is_separator_char(verbatim: bool, c: char) -> (r: bool)
    ensures
        r == is_separator(verbatim, c),
{
    if verbatim {
        c == '\\'
    } else {
        c == '/' || c == '\\'
    }
}

fn is_ascii_letter_char(c: char) -> (r: bool)
    ensures
        r == is_ascii_letter(c),
{
    ('a' <= c && c <= 'z') || ('A' <= c && c <= 'Z')
}

/// The characters of `s`, one per element.
fn chars_of(s: &str) -> (r: Vec<char>)
    ensures
        r@ == s@,
{
    let len = s.unicode_len();
    let mut r: Vec<char> = Vec::new();
    let mut i: usize = 0;
    while i < len
        invariant
            i <= len == s@.len(),
            r@ == s@.subrange(0, i as int),
        decreases len - i,
    {
        r.push(s.get_char(i));
        assert(r@ =~= s@.subrange(0, i + 1));
        i = i + 1;
    }
    assert(r@ =~= s@);
    r
}

fn find_separator(p: &Vec<char>, i: usize, verbatim: bool) -> (r: usize)
    requires
        i <= p@.len(),
    ensures
        r == next_separator(p@, i as int, verbatim),
        i <= r <= p@.len(),
{
    let mut j: usize = i;
    while j < p.len() && !is_separator_char(verbatim, p[j])
        invariant
            i <= j <= p@.len(),
            next_separator(p@, i as int, verbatim) == next_separator(p@, j as int, verbatim),
        decreases p@.len() - j,
    {
        j = j + 1;
    }
    j
}

fn skip_separator_exec(p: &Vec<char>, s: usize) -> (r: usize)
    requires
        s <= p@.len(),
    ensures
        r == skip_separator(p@, s as int),
        s <= r <= p@.len(),
{
    if s < p.len() {
        s + 1
    } else {
        p.len()
    }
}

/// Length of the prefix of `p`, and whether it is verbatim.
fn prefix_info(p: &Vec<char>) -> (r: (usize, bool))
    ensures
        (r.0 as int, r.1) == prefix_of(p@),
        r.0 <= p@.len(),
{
    let len = p.len();
    if len >= 2 && is_separator_char(false, p[0]) && is_separator_char(false, p[1]) {
        if len >= 4 && p[0] == '\\' && p[1] == '\\' && p[2] == '?' && p[3] == '\\' {
            if len >= 8 && p[4] == 'U' && p[5] == 'N' && p[6] == 'C' && is_separator_char(
                false,
                p[7],
            ) {
                let s1 = find_separator(p, 8, true);
                let a = skip_separator_exec(p, s1);
                let s2 = find_separator(p, a, true);
                if s2 > a {
                    (s2, true)
                } else {
                    (s1, true)
                }
            } else if len >= 6 && is_ascii_letter_char(p[4]) && p[5] == ':' && (len == 6 || p[6]
                == '\\') {
                (6, true)
            } else {
                (find_separator(p, 4, true), true)
            }
        } else if len >= 4 && p[2] == '.' && is_separator_char(false, p[3]) {
            (find_separator(p, 4, false), false)
        } else {
            let s1 = find_separator(p, 2, false);
            let a = skip_separator_exec(p, s1);
            let s2 = find_separator(p, a, false);
            if s1 > 2 && s2 > a {
                (s2, false)
            } else {
                (0, false)
            }
        }
    } else if len >= 2 && is_ascii_letter_char(p[0]) && p[1] == ':' {
        (2, false)
    } else {
        (0, false)
    }
}

/// Bounds of the last component of `p[lo..]` that is not skipped, if any.
fn last_component_range(p: &Vec<char>, lo: usize, verbatim: bool) -> (r: Option<(usize, usize)>)
    requires
        lo <= p@.len(),
    ensures
        r matches Some((a, b)) ==> lo <= a <= b <= p@.len() && last_component(
            p@.subrange(lo as int, p@.len() as int),
            verbatim,
        ) == Some(p@.subrange(a as int, b as int)),
        r is None ==> last_component(p@.subrange(lo as int, p@.len() as int), verbatim) is None,
{
    let len = p.len();
    let mut end: usize = len;
    loop
        invariant
            lo <= end <= len == p@.len(),
            last_component(p@.subrange(lo as int, len as int), verbatim) == last_component(
                p@.subrange(lo as int, end as int),
                verbatim,
            ),
        decreases end,
    {
        let ghost s = p@.subrange(lo as int, end as int);
        let mut start: usize = end;
        assert(s.subrange(0, start - lo) =~= s);
        while start > lo && !is_separator_char(verbatim, p[start - 1])
            invariant
                lo <= start <= end <= p@.len(),
                s == p@.subrange(lo as int, end as int),
                component_start(s, verbatim) == component_start(
                    s.subrange(0, start - lo),
                    verbatim,
                ),
            decreases start,
        {
            assert(s.subrange(0, start - lo).drop_last() =~= s.subrange(0, start - 1 - lo));
            start = start - 1;
        }
        assert(component_start(s, verbatim) == start - lo);
        assert(s.subrange(start - lo, s.len() as int) =~= p@.subrange(start as int, end as int));
        let skipped = start == end || (!verbatim && end - start == 1 && p[start] == '.');
        assert(skipped == is_skipped(p@.subrange(start as int, end as int), verbatim)) by {
            if end - start == 1 {
                assert(p@.subrange(start as int, end as int) =~= seq![p@[start as int]]);
            }
            if !verbatim && p@.subrange(start as int, end as int) == seq!['.'] {
                assert(p@.subrange(start as int, end as int)[0] == p@[start as int]);
            }
        }
        if !skipped {
            return Some((start, end));
        }
        if start == lo {
            return None;
        }
        assert(s.subrange(0, start - lo - 1) =~= p@.subrange(lo as int, start - 1));
        end = start - 1;
    }
}

/// The extension of `target`, read as the module's documentation says, or
/// `None` where its file name has none.
pub fn file_extension(target: &str) -> (r: Option<String>)
    ensures
        r matches Some(e) ==> extension_of(target@) == Some(e@),
        r is None ==> extension_of(target@) is None,
{
    let p = chars_of(target);
    let (n, verbatim) = prefix_info(&p);
    let (start, end) = match last_component_range(&p, n, verbatim) {
        Some(range) => range,
        None => {
            return None;
        },
    };
    let ghost name = p@.subrange(start as int, end as int);
    if end - start == 1 && p[start] == '.' {
        assert(name =~= seq!['.']);
        return None;
    }
    if end - start == 2 && p[start] == '.' && p[start + 1] == '.' {
        assert(name =~= seq!['.', '.']);
        return None;
    }
    assert(name == seq!['.'] ==> name.len() == 1 && name[0] == '.');
    assert(name == seq!['.', '.'] ==> name.len() == 2 && name[0] == '.' && name[1] == '.');
    assert(file_name(target@) == Some(name));
    let mut i: usize = end;
    assert(p@.subrange(start as int, i as int) =~= name);
    while i > start && p[i - 1] != '.'
        invariant
            start <= i <= end <= p@.len(),
            name == p@.subrange(start as int, end as int),
            last_dot(name) matches Some(k) ==> last_dot(p@.subrange(start as int, i as int))
                == Some(k),
            last_dot(name) is None ==> last_dot(p@.subrange(start as int, i as int)) is None,
        decreases i,
    {
        assert(p@.subrange(start as int, i as int).drop_last() =~= p@.subrange(
            start as int,
            i - 1,
        ));
        i = i - 1;
    }
    if i - start <= 1 {
        assert(i == start ==> p@.subrange(start as int, i as int) =~= Seq::<char>::empty());
        assert(i == start + 1 ==> last_dot(p@.subrange(start as int, i as int)) == Some(0int));
        None
    } else {
        assert(last_dot(p@.subrange(start as int, i as int)) == Some(i - 1 - start));
        assert(name.subrange(i - start, name.len() as int) =~= p@.subrange(i as int, end as int));
        let ext = target.substring_char(i, end);
        Some(ext.to_owned())
    }
}

} // verus!
