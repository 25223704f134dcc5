//! Paths held as strings.
//!
//! Joining follows `PathBuf::join` on the layout's platform: Windows joins
//! with `\`, Linux and macOS with `/`; joined segments are kept as written.
//! Components are separated by `/` and, as on Windows, by `\`.

use vstd::prelude::*;

use crate::text::{chars_of, owned, push_char, push_str, string_of};

verus! {

/// The platform whose conventions a layout follows.
#[derive(Debug, Clone, Copy, PartialEq, Eq, Structural)]
pub enum PlatformKind {
    Windows,
    Linux,
    MacOs,
}

pub open spec fn is_separator(platform: PlatformKind, c: char) -> bool {
    c == '/' || (platform == PlatformKind::Windows && c == '\\')
}

/// Whether `s` starts with a drive prefix such as `C:`.
pub open spec fn starts_with_drive(s: Seq<char>) -> bool {
    s.len() >= 2 && is_drive(s.subrange(0, 2))
}

/// Whether `s` starts with two separators, as UNC and device paths do.
pub open spec fn starts_with_two_separators(s: Seq<char>) -> bool {
    s.len() >= 2 && is_any_separator(s[0]) && is_any_separator(s[1])
}

/// Whether joining `rel` onto any base gives `rel` itself: an absolute path
/// on Linux and macOS (it starts with `/`); a path with a prefix on Windows
/// (a drive such as `C:`, or two leading separators).
pub open spec fn replaces_base(platform: PlatformKind, rel: Seq<char>) -> bool {
    if platform == PlatformKind::Windows {
        starts_with_drive(rel) || starts_with_two_separators(rel)
    } else {
        rel.len() > 0 && rel[0] == '/'
    }
}

/// The position of the first separator of `s` at or after `i`; `s.len()`
/// when there is none.
pub open spec fn separator_from(s: Seq<char>, i: int) -> int
    decreases s.len() - i,
{
    if i < 0 || i >= s.len() {
        s.len() as int
    } else if is_any_separator(s[i]) {
        i
    } else {
        separator_from(s, i + 1)
    }
}

/// The Windows prefix of `s`: its drive (`C:`), or, after two leading
/// separators, the next two components (`\\server\share`); empty otherwise.
pub open spec fn windows_prefix(s: Seq<char>) -> Seq<char> {
    if starts_with_drive(s) {
        s.subrange(0, 2)
    } else if starts_with_two_separators(s) {
        let server_end = separator_from(s, 2);
        if server_end >= s.len() {
            s
        } else {
            s.subrange(0, separator_from(s, server_end + 1))
        }
    } else {
        Seq::empty()
    }
}

/// The platform's separator: `\` on Windows, `/` elsewhere.
pub open spec fn main_separator(platform: PlatformKind) -> char {
    if platform == PlatformKind::Windows {
        '\\'
    } else {
        '/'
    }
}

/// `base` joined with `rel`, as `PathBuf::join` joins on `platform`: a `rel`
/// that names a place on its own replaces `base`; on Windows a `rel` that
/// starts with one separator keeps only the prefix of `base`; otherwise `rel`
/// follows `base`, after the platform's separator unless `base` is empty,
/// ends with a separator, or (on Windows) is a bare drive. Segments are kept
/// as written.
pub open spec fn join(platform: PlatformKind, base: Seq<char>, rel: Seq<char>) -> Seq<char> {
    if replaces_base(platform, rel) {
        rel
    } else if platform == PlatformKind::Windows && rel.len() > 0 && is_any_separator(rel[0]) {
        windows_prefix(base) + rel
    } else if base.len() == 0 || is_separator(platform, base.last()) || (platform
        == PlatformKind::Windows && base.len() == 2 && starts_with_drive(base)) {
        base + rel
    } else {
        base + seq![main_separator(platform)] + rel
    }
}

fn is_sep_char(c: char) -> (r: bool)
    ensures
        r == is_any_separator(c),
{
    c == '/' || c == '\\'
}

fn is_drive_at_start(s: &Vec<char>) -> (r: bool)
    ensures
        r == starts_with_drive(s@),
{
    if s.len() < 2 {
        return false;
    }
    let c = s[0];
    let r = s[1] == ':' && (('a' <= c && c <= 'z') || ('A' <= c && c <= 'Z'));
    assert(s@.subrange(0, 2)[0] == c && s@.subrange(0, 2)[1] == s@[1]);
    r
}

fn two_separators_at_start(s: &Vec<char>) -> (r: bool)
    ensures
        r == starts_with_two_separators(s@),
{
    s.len() >= 2 && is_sep_char(s[0]) && is_sep_char(s[1])
}

fn first_separator_from(s: &Vec<char>, i: usize) -> (r: usize)
    requires
        i <= s@.len(),
    ensures
        r == separator_from(s@, i as int),
        i <= r <= s@.len(),
{
    let mut j = i;
    while j < s.len() && !is_sep_char(s[j])
        invariant
            i <= j <= s@.len(),
            separator_from(s@, i as int) == separator_from(s@, j as int),
        decreases s.len() - j,
    {
        j = j + 1;
    }
    j
}

fn windows_prefix_of(s: &Vec<char>) -> (r: String)
    ensures
        r@ == windows_prefix(s@),
{
    if is_drive_at_start(s) {
        string_of(s, 0, 2)
    } else if two_separators_at_start(s) {
        let server_end = first_separator_from(s, 2);
        if server_end >= s.len() {
            string_of(s, 0, s.len())
        } else {
            let share_end = first_separator_from(s, server_end + 1);
            string_of(s, 0, share_end)
        }
    } else {
        proof {
            assert(windows_prefix(s@) =~= Seq::<char>::empty());
        }
        String::new()
    }
}

/// Joins `rel` onto `base`.
pub fn join_path(platform: PlatformKind, base: &str, rel: &str) -> (r: String)
    ensures
        r@ == join(platform, base@, rel@),
{
    let b = chars_of(base);
    let t = chars_of(rel);
    let windows = platform == PlatformKind::Windows;
    let replaces = if windows {
        is_drive_at_start(&t) || two_separators_at_start(&t)
    } else {
        t.len() > 0 && t[0] == '/'
    };
    if replaces {
        return owned(rel);
    }
    if windows && t.len() > 0 && is_sep_char(t[0]) {
        let mut r = windows_prefix_of(&b);
        push_str(&mut r, rel);
        return r;
    }
    let mut r = owned(base);
    let bare = b.len() == 0 || is_sep_char(b[b.len() - 1]) && (windows || b[b.len() - 1] == '/')
        || windows && b.len() == 2 && is_drive_at_start(&b);
    if !bare {
        push_char(&mut r, if windows { '\\' } else { '/' });
    }
    push_str(&mut r, rel);
    proof {
        if b@.len() > 0 {
            assert(b@.last() == b@[b@.len() - 1]);
        }
    }
    r
}

/// Whether `c` separates path components (`/` or `\`).
pub open spec fn is_any_separator(c: char) -> bool {
    c == '/' || c == '\\'
}

/// `s` without trailing separators.
pub open spec fn strip_trailing_separators(s: Seq<char>) -> Seq<char>
    decreases s.len(),
{
    if s.len() > 0 && is_any_separator(s.last()) {
        strip_trailing_separators(s.drop_last())
    } else {
        s
    }
}

/// The text after the last separator of `s` (all of `s` when it has none).
pub open spec fn after_last_separator(s: Seq<char>) -> Seq<char>
    decreases s.len(),
{
    if s.len() == 0 {
        s
    } else if is_any_separator(s.last()) {
        Seq::empty()
    } else {
        after_last_separator(s.drop_last()).push(s.last())
    }
}

/// Whether a component is a drive prefix such as `C:`.
pub open spec fn is_drive(c: Seq<char>) -> bool {
    c.len() == 2 && c[1] == ':' && (('a' <= c[0] && c[0] <= 'z') || ('A' <= c[0] && c[0] <= 'Z'))
}

/// The final component of a path, as `Path::file_name` gives it: trailing
/// separators are ignored, and a path ending in `..`, `.`, a root or a drive has none.
pub open spec fn file_name(path: Seq<char>) -> Option<Seq<char>> {
    let trimmed = strip_trailing_separators(path);
    let last = after_last_separator(trimmed);
    if last.len() == 0 || last == seq!['.', '.'] || last == seq!['.'] || (last.len() == trimmed.len()
        && is_drive(last)) {
        None
    } else {
        Some(last)
    }
}

/// The position of the last `.` of `s`, if any.
pub open spec fn last_dot(s: Seq<char>) -> Option<int>
    decreases s.len(),
{
    if s.len() == 0 {
        None
    } else if s.last() == '.' {
        Some(s.len() - 1)
    } else {
        last_dot(s.drop_last())
    }
}

/// A file name without its extension, as `Path::file_stem` gives it: a name
/// with no dot, or whose only dot leads it, is its own stem.
pub open spec fn file_stem_of(name: Seq<char>) -> Seq<char> {
    match last_dot(name) {
        Some(i) => if i == 0 {
            name
        } else {
            name.subrange(0, i)
        },
        None => name,
    }
}

fn strip_trailing_len(s: &Vec<char>) -> (n: usize)
    ensures
        n <= s@.len(),
        s@.subrange(0, n as int) == strip_trailing_separators(s@),
{
    let mut n = s.len();
    assert(s@.subrange(0, n as int) =~= s@);
    while n > 0 && (s[n - 1] == '/' || s[n - 1] == '\\')
        invariant
            n <= s@.len(),
            strip_trailing_separators(s@) == strip_trailing_separators(s@.subrange(0, n as int)),
        decreases n,
    {
        assert(s@.subrange(0, n as int).drop_last() =~= s@.subrange(0, n - 1));
        n = n - 1;
    }
    n
}

fn last_separator_end(s: &Vec<char>, n: usize) -> (k: usize)
    requires
        n <= s@.len(),
    ensures
        k <= n,
        s@.subrange(k as int, n as int) == after_last_separator(s@.subrange(0, n as int)),
{
    let mut k = n;
    assert(s@.subrange(k as int, n as int) =~= Seq::<char>::empty());
    while k > 0 && !(s[k - 1] == '/' || s[k - 1] == '\\')
        invariant
            k <= n <= s@.len(),
            after_last_separator(s@.subrange(0, n as int)) == after_last_separator(s@.subrange(0, k as int))
                + s@.subrange(k as int, n as int),
        decreases k,
    {
        let ghost t = s@.subrange(0, k as int);
        assert(t.drop_last() =~= s@.subrange(0, k - 1));
        assert(t.last() == s@[k - 1]);
        assert(s@.subrange(k - 1, n as int) =~= seq![s@[k - 1]] + s@.subrange(k as int, n as int));
        assert(after_last_separator(t) =~= after_last_separator(t.drop_last()).push(t.last()));
        k = k - 1;
    }
    proof {
        let t = s@.subrange(0, k as int);
        if k > 0 {
            assert(t.last() == s@[k - 1]);
        }
        assert(after_last_separator(t) =~= Seq::<char>::empty());
        assert(Seq::<char>::empty() + s@.subrange(k as int, n as int) =~= s@.subrange(k as int, n as int));
    }
    k
}

/// The final component of `path`, if it has one.
#[verifier::spinoff_prover]
pub fn path_file_name(path: &str) -> (r: Option<String>)
    ensures
        match r {
            Some(n) => file_name(path@) == Some(n@),
            None => file_name(path@) is None,
        },
{
    let s = crate::text::chars_of(path);
    let n = strip_trailing_len(&s);
    let k = last_separator_end(&s, n);
    proof {
        assert(s@.subrange(0, n as int).len() == n);
    }
    let len = n - k;
    if len == 0 {
        return None;
    }
    if len == 2 && s[k] == '.' && s[k + 1] == '.' {
        assert(s@.subrange(k as int, n as int) =~= seq!['.', '.']);
        return None;
    }
    if len == 1 && s[k] == '.' {
        assert(s@.subrange(k as int, n as int) =~= seq!['.']);
        return None;
    }
    if k == 0 && len == 2 && s[1] == ':' && (('a' <= s[0] && s[0] <= 'z') || ('A' <= s[0] && s[0]
        <= 'Z')) {
        return None;
    }
    let r = crate::text::string_of(&s, k, n);
    proof {
        let last = s@.subrange(k as int, n as int);
        let trimmed = strip_trailing_separators(path@);
        assert(trimmed == s@.subrange(0, n as int));
        assert(after_last_separator(trimmed) == last);
        assert(r@ == last);
        if last == seq!['.', '.'] {
            assert(last[0] == s@[k as int] && last[1] == s@[k + 1]);
        }
        if last == seq!['.'] {
            assert(last[0] == s@[k as int]);
        }
        if last.len() == n && is_drive(last) {
            assert(last[0] == s@[0] && last[1] == s@[1]);
        }
    }
    Some(r)
}

/// The stem of a file name.
pub fn stem_of(name: &str) -> (r: String)
    ensures
        r@ == file_stem_of(name@),
{
    let s = crate::text::chars_of(name);
    let mut i = s.len();
    assert(s@.subrange(0, i as int) =~= s@);
    while i > 0 && s[i - 1] != '.'
        invariant
            i <= s@.len(),
            last_dot(s@) == last_dot(s@.subrange(0, i as int)),
        decreases i,
    {
        assert(s@.subrange(0, i as int).drop_last() =~= s@.subrange(0, i - 1));
        i = i - 1;
    }
    if i == 0 {
        assert(last_dot(s@.subrange(0, 0)) is None);
        return crate::text::owned(name);
    }
    let dot = i - 1;
    assert(s@.subrange(0, i as int).last() == s@[dot as int]);
    if dot == 0 {
        return crate::text::owned(name);
    }
    crate::text::string_of(&s, 0, dot)
}

} // verus!
