//! Path arithmetic on `/`-separated text.
//!
//! Paths are modelled as sequences of characters. A path is cut into
//! components at `/`; trailing separators and trailing `.` components carry no
//! meaning, and the last component that remains is the file name. Every
//! executable function is specified by the spec function of the same name
//! with a `spec_` prefix.

use vstd::prelude::*;
use vstd::string::*;

verus! {

/// `text` ends with `suffix`.
pub open spec fn spec_ends_with(text: Seq<char>, suffix: Seq<char>) -> bool {
    &&& suffix.len() <= text.len()
    &&& text.subrange(text.len() - suffix.len(), text.len() as int) == suffix
}

/// One past the last position at which `mark` stands in `text`, and 0 where
/// it does not occur.
pub open spec fn spec_after_last(text: Seq<char>, mark: char) -> nat
    decreases text.len(),
{
    if text.len() == 0 {
        0
    } else if text.last() == mark {
        text.len()
    } else {
        spec_after_last(text.drop_last(), mark)
    }
}

/// Length of the part of `path` that is left when trailing separators and
/// trailing `.` components are dropped.
pub open spec fn spec_trimmed_len(path: Seq<char>) -> nat
    decreases path.len(),
{
    if path.len() == 0 {
        0
    } else if path.last() == '/' {
        spec_trimmed_len(path.drop_last())
    } else if path.last() == '.' && path.len() >= 2 && path[path.len() - 2] == '/' {
        spec_trimmed_len(path.subrange(0, path.len() - 2))
    } else {
        path.len()
    }
}

/// `path` without its meaningless tail.
pub open spec fn spec_trimmed(path: Seq<char>) -> Seq<char> {
    path.subrange(0, spec_trimmed_len(path) as int)
}

/// The text after the last separator of `path`.
pub open spec fn spec_last_component(path: Seq<char>) -> Seq<char> {
    path.subrange(spec_after_last(path, '/') as int, path.len() as int)
}

/// `component` stands for a directory itself or for its parent.
pub open spec fn spec_is_dots(component: Seq<char>) -> bool {
    ||| component.len() == 1 && component[0] == '.'
    ||| component.len() == 2 && component[0] == '.' && component[1] == '.'
}

/// The file name of `path`: its last component once the tail is trimmed,
/// unless nothing is left or the component is `.` or `..`.
pub open spec fn spec_file_name(path: Seq<char>) -> Option<Seq<char>> {
    let name = spec_last_component(spec_trimmed(path));
    if name.len() == 0 || spec_is_dots(name) {
        None
    } else {
        Some(name)
    }
}

/// The extension of `path`: what follows the last `.` of its file name,
/// provided that `.` is not the name's first character.
pub open spec fn spec_extension(path: Seq<char>) -> Option<Seq<char>> {
    match spec_file_name(path) {
        None => None,
        Some(name) => {
            let dot = spec_after_last(name, '.');
            if dot <= 1 {
                None
            } else {
                Some(name.subrange(dot as int, name.len() as int))
            }
        },
    }
}

/// `path` with the extension of its file name replaced by `extension`.
/// A path without a file name stays as it is; an empty `extension` removes
/// the old one together with its `.`.
pub open spec fn spec_with_extension(path: Seq<char>, extension: Seq<char>) -> Seq<char> {
    match spec_file_name(path) {
        None => path,
        Some(name) => {
            let dot = spec_after_last(name, '.');
            let cut = if dot <= 1 {
                0
            } else {
                name.len() - dot + 1
            };
            let stem = path.subrange(0, spec_trimmed_len(path) - cut);
            if extension.len() == 0 {
                stem
            } else {
                stem + seq!['.'] + extension
            }
        },
    }
}

/// The directory that holds `path`: the trimmed path without its last
/// component, itself trimmed. The root has no parent, nor has the empty
/// path; what lies directly below the root has the root as its parent.
pub open spec fn spec_parent(path: Seq<char>) -> Option<Seq<char>> {
    let kept = spec_trimmed(path);
    if kept.len() == 0 {
        None
    } else {
        let head = kept.subrange(0, spec_after_last(kept, '/') as int);
        if head.len() > 0 && spec_trimmed_len(head) == 0 {
            Some(seq!['/'])
        } else {
            Some(spec_trimmed(head))
        }
    }
}

/// `path` starts at the root.
pub open spec fn spec_is_absolute(path: Seq<char>) -> bool {
    path.len() > 0 && path[0] == '/'
}

/// `relative` adjoined to `base`. An absolute `relative` replaces `base`;
/// otherwise one separator stands between the two unless `base` is empty or
/// brings its own.
pub open spec fn spec_join(base: Seq<char>, relative: Seq<char>) -> Seq<char> {
    if spec_is_absolute(relative) {
        relative
    } else if base.len() == 0 || base.last() == '/' {
        base + relative
    } else {
        base + seq!['/'] + relative
    }
}

/// A `..` component of `path` starts at position `at`.
pub open spec fn spec_parent_segment_at(path: Seq<char>, at: int) -> bool {
    &&& 0 <= at
    &&& at + 2 <= path.len()
    &&& path[at] == '.'
    &&& path[at + 1] == '.'
    &&& (at == 0 || path[at - 1] == '/')
    &&& (at + 2 == path.len() || path[at + 2] == '/')
}

/// Some component of `path` is `..`.
pub open spec fn spec_has_parent_segment(path: Seq<char>) -> bool {
    exists|at: int| spec_parent_segment_at(path, at)
}

/// `path` lies inside the directory `root`: it is `root`, one separator and
/// a remainder none of whose components is `..`.
pub open spec fn spec_is_inside(root: Seq<char>, path: Seq<char>) -> bool {
    &&& root.len() < path.len()
    &&& path.subrange(0, root.len() as int) == root
    &&& path[root.len() as int] == '/'
    &&& !spec_has_parent_segment(path.subrange(root.len() as int + 1, path.len() as int))
}

/// Tells whether `text` ends with `suffix`.
pub fn ends_with(text: &str, suffix: &str) -> (r: bool)
    ensures
        r == spec_ends_with(text@, suffix@),
{
    let n: usize = text.unicode_len();
    let m: usize = suffix.unicode_len();
    if m > n {
        return false;
    }
    let start: usize = n - m;
    let mut i: usize = 0;
    while i < m
        invariant
            n == text@.len(),
            m == suffix@.len(),
            m <= n,
            start == n - m,
            i <= m,
            forall|j: int| 0 <= j < i ==> text@[start + j] == suffix@[j],
        decreases m - i,
    {
        if text.get_char(start + i) != suffix.get_char(i) {
            assert(text@.subrange(n - m, n as int)[i as int] != suffix@[i as int]);
            return false;
        }
        i = i + 1;
    }
    assert(text@.subrange(n - m, n as int) =~= suffix@);
    true
}

/// Tells whether two texts hold the same characters.
pub fn same_text(left: &str, right: &str) -> (r: bool)
    ensures
        r == (left@ == right@),
{
    let n: usize = left.unicode_len();
    if n != right.unicode_len() {
        return false;
    }
    let same = ends_with(left, right);
    assert(left@.subrange(0, n as int) =~= left@);
    same
}

/// Finds, in the window `from..to` of `text`, one past the last position of
/// `mark`, counted from `from`.
fn after_last(text: &str, from: usize, to: usize, mark: char) -> (r: usize)
    requires
        from <= to <= text@.len(),
    ensures
        r == spec_after_last(text@.subrange(from as int, to as int), mark),
        r <= to - from,
{
    let mut end: usize = to;
    while end > from
        invariant
            from <= end <= to <= text@.len(),
            spec_after_last(text@.subrange(from as int, to as int), mark) == spec_after_last(
                text@.subrange(from as int, end as int),
                mark,
            ),
        decreases end,
    {
        let window = Ghost(text@.subrange(from as int, end as int));
        if text.get_char(end - 1) == mark {
            assert(window@.last() == mark);
            return end - from;
        }
        assert(window@.drop_last() =~= text@.subrange(from as int, end - 1));
        end = end - 1;
    }
    assert(text@.subrange(from as int, end as int).len() == 0);
    0
}

/// Measures the first `to` characters of `text` without their meaningless
/// tail.
fn trimmed_len(text: &str, to: usize) -> (r: usize)
    requires
        to <= text@.len(),
    ensures
        r == spec_trimmed_len(text@.subrange(0, to as int)),
        r <= to,
{
    let mut end: usize = to;
    while end > 0
        invariant
            end <= to <= text@.len(),
            spec_trimmed_len(text@.subrange(0, to as int)) == spec_trimmed_len(
                text@.subrange(0, end as int),
            ),
        decreases end,
    {
        let window = Ghost(text@.subrange(0, end as int));
        let last = text.get_char(end - 1);
        if last == '/' {
            assert(window@.drop_last() =~= text@.subrange(0, end - 1));
            end = end - 1;
        } else if last == '.' && end >= 2 && text.get_char(end - 2) == '/' {
            assert(window@.subrange(0, window@.len() - 2) =~= text@.subrange(0, end - 2));
            end = end - 2;
        } else {
            assert(window@.last() == last);
            assert(end >= 2 ==> window@[window@.len() - 2] == text@[end - 2]);
            return end;
        }
    }
    assert(text@.subrange(0, end as int).len() == 0);
    0
}

/// Tells whether the window `from..to` of `text` is `.` or `..`.
fn is_dots(text: &str, from: usize, to: usize) -> (r: bool)
    requires
        from <= to <= text@.len(),
    ensures
        r == spec_is_dots(text@.subrange(from as int, to as int)),
{
    let len: usize = to - from;
    if len == 1 {
        text.get_char(from) == '.'
    } else if len == 2 {
        text.get_char(from) == '.' && text.get_char(from + 1) == '.'
    } else {
        false
    }
}

/// Where the file name of `path` starts and ends, if it has one.
fn file_name_bounds(path: &str) -> (r: Option<(usize, usize)>)
    ensures
        match r {
            Some((from, to)) => {
                &&& from < to <= path@.len()
                &&& to == spec_trimmed_len(path@)
                &&& from == spec_after_last(spec_trimmed(path@), '/')
                &&& spec_file_name(path@) == Some(path@.subrange(from as int, to as int))
            },
            None => spec_file_name(path@) is None,
        },
{
    let n: usize = path.unicode_len();
    assert(path@.subrange(0, n as int) =~= path@);
    let to: usize = trimmed_len(path, n);
    let from: usize = after_last(path, 0, to, '/');
    assert(spec_last_component(spec_trimmed(path@)) =~= path@.subrange(from as int, to as int));
    if from == to || is_dots(path, from, to) {
        None
    } else {
        Some((from, to))
    }
}

/// The file name of `path`.
pub fn file_name(path: &str) -> (r: Option<String>)
    ensures
        match r {
            Some(name) => spec_file_name(path@) == Some(name@),
            None => spec_file_name(path@) is None,
        },
{
    match file_name_bounds(path) {
        None => None,
        Some((from, to)) => Some(String::from_str(path.substring_char(from, to))),
    }
}

/// The extension of `path`.
pub fn extension(path: &str) -> (r: Option<String>)
    ensures
        match r {
            Some(found) => spec_extension(path@) == Some(found@),
            None => spec_extension(path@) is None,
        },
{
    match file_name_bounds(path) {
        None => None,
        Some((from, to)) => {
            let name = Ghost(path@.subrange(from as int, to as int));
            let dot: usize = after_last(path, from, to, '.');
            if dot <= 1 {
                None
            } else {
                assert(name@.subrange(dot as int, name@.len() as int) =~= path@.subrange(
                    from + dot,
                    to as int,
                ));
                Some(String::from_str(path.substring_char(from + dot, to)))
            }
        },
    }
}

/// `path` with the extension of its file name replaced by `extension`.
pub fn with_extension(path: &str, extension: &str) -> (r: String)
    ensures
        r@ == spec_with_extension(path@, extension@),
{
    match file_name_bounds(path) {
        None => String::from_str(path),
        Some((from, to)) => {
            let dot: usize = after_last(path, from, to, '.');
            let cut: usize = if dot <= 1 {
                0
            } else {
                to - from - dot + 1
            };
            let mut result = String::from_str(path.substring_char(0, to - cut));
            if extension.unicode_len() > 0 {
                proof {
                    reveal_strlit(".");
                    assert("."@ =~= seq!['.']);
                }
                result.append(".");
                result.append(extension);
            }
            result
        },
    }
}

/// The directory that holds `path`.
pub fn parent(path: &str) -> (r: Option<String>)
    ensures
        match r {
            Some(directory) => spec_parent(path@) == Some(directory@),
            None => spec_parent(path@) is None,
        },
{
    let n: usize = path.unicode_len();
    assert(path@.subrange(0, n as int) =~= path@);
    let kept: usize = trimmed_len(path, n);
    if kept == 0 {
        return None;
    }
    let head: usize = after_last(path, 0, kept, '/');
    assert(spec_trimmed(path@).subrange(0, head as int) =~= path@.subrange(0, head as int));
    let left: usize = trimmed_len(path, head);
    if head > 0 && left == 0 {
        proof {
            reveal_strlit("/");
            assert("/"@ =~= seq!['/']);
        }
        Some(String::from_str("/"))
    } else {
        assert(spec_trimmed(path@.subrange(0, head as int)) =~= path@.subrange(0, left as int));
        Some(String::from_str(path.substring_char(0, left)))
    }
}

/// Tells whether `path` starts at the root.
pub fn is_absolute(path: &str) -> (r: bool)
    ensures
        r == spec_is_absolute(path@),
{
    path.unicode_len() > 0 && path.get_char(0) == '/'
}

/// `relative` adjoined to `base`.
pub fn join(base: &str, relative: &str) -> (r: String)
    ensures
        r@ == spec_join(base@, relative@),
{
    if is_absolute(relative) {
        return String::from_str(relative);
    }
    let n: usize = base.unicode_len();
    let mut result = String::from_str(base);
    if n > 0 && base.get_char(n - 1) != '/' {
        proof {
            reveal_strlit("/");
            assert("/"@ =~= seq!['/']);
        }
        result.append("/");
    }
    result.append(relative);
    result
}

} // verus!
