//! Asset paths inside a pet package, read with Windows path syntax: `/` and
//! `\` both separate components, and `X:` at the start is a drive prefix.

use vstd::prelude::*;

use crate::context::{ascii_eq_ignore_case, eq_ignore_ascii_case};

verus! {

pub open spec fn is_sep(c: char) -> bool {
    c == '/' || c == '\\'
}

pub open spec fn is_ascii_alpha(c: char) -> bool {
    ('a' <= c && c <= 'z') || ('A' <= c && c <= 'Z')
}

/// The path starts with a drive prefix such as `C:`.
pub open spec fn has_drive_prefix(p: Seq<char>) -> bool {
    p.len() >= 2 && p[1] == ':' && is_ascii_alpha(p[0])
}

/// A `..` component starts at index `i`.
pub open spec fn is_parent_dir_at(p: Seq<char>, i: int) -> bool {
    &&& 0 <= i
    &&& i + 1 < p.len()
    &&& p[i] == '.'
    &&& p[i + 1] == '.'
    &&& (i == 0 || is_sep(p[i - 1]))
    &&& (i + 2 == p.len() || is_sep(p[i + 2]))
}

/// The path starts with a `.` component.
pub open spec fn starts_with_cur_dir(p: Seq<char>) -> bool {
    p.len() >= 1 && p[0] == '.' && (p.len() == 1 || is_sep(p[1]))
}

/// A non-empty relative path whose every component is a plain name: no
/// root, no drive prefix, no leading `.` and no `..` anywhere.
pub open spec fn spec_is_safe_relative_path(p: Seq<char>) -> bool {
    &&& p.len() > 0
    &&& !is_sep(p[0])
    &&& !has_drive_prefix(p)
    &&& !starts_with_cur_dir(p)
    &&& forall|i: int| !is_parent_dir_at(p, i)
}

fn is_sep_char(c: char) -> (sep: bool)
    ensures
        sep == is_sep(c),
{
    c == '/' || c == '\\'
}

fn is_alpha_char(c: char) -> (alpha: bool)
    ensures
        alpha == is_ascii_alpha(c),
{
    ('a' <= c && c <= 'z') || ('A' <= c && c <= 'Z')
}

fn drive_prefix(p: &str, len: usize) -> (prefix: bool)
    requires
        len == p@.len(),
    ensures
        prefix == has_drive_prefix(p@),
{
    len >= 2 && p.get_char(1) == ':' && is_alpha_char(p.get_char(0))
}

pub fn is_safe_relative_path(path: &str) -> (safe: bool)
    ensures
        safe == spec_is_safe_relative_path(path@),
{
    let len = path.unicode_len();
    if len == 0 {
        return false;
    }
    let first = path.get_char(0);
    if is_sep_char(first) || drive_prefix(path, len) {
        return false;
    }
    if first == '.' && (len == 1 || is_sep_char(path.get_char(1))) {
        return false;
    }
    let mut i: usize = 0;
    while i + 1 < len
        invariant
            len == path@.len(),
            i < len,
            forall|j: int| 0 <= j < i ==> !is_parent_dir_at(path@, j),
        decreases len - i,
    {
        if path.get_char(i) == '.' && path.get_char(i + 1) == '.' && (i == 0 || is_sep_char(
            path.get_char(i - 1),
        )) && (i + 2 == len || is_sep_char(path.get_char(i + 2))) {
            assert(is_parent_dir_at(path@, i as int));
            return false;
        }
        i = i + 1;
    }
    assert forall|j: int| !is_parent_dir_at(path@, j) by {
        if 0 <= j < i {
        }
    }
    true
}

/// Start of the last separator-free run in `p[lo..end]`.
pub open spec fn seg_start(p: Seq<char>, lo: int, end: int) -> int
    decreases end - lo,
{
    if end <= lo {
        lo
    } else if is_sep(p[end - 1]) {
        end
    } else {
        seg_start(p, lo, end - 1)
    }
}

/// Bounds of the last component of `p[lo..end]`, skipping trailing
/// separators and `.` components; an empty range when there is none.
pub open spec fn name_range(p: Seq<char>, lo: int, end: int) -> (int, int)
    decreases end - lo,
{
    if end <= lo {
        (end, end)
    } else {
        let s = seg_start(p, lo, end);
        if s == end || (end - s == 1 && p[s] == '.') {
            if s <= lo {
                (end, end)
            } else {
                name_range(p, lo, s - 1)
            }
        } else {
            (s, end)
        }
    }
}

pub open spec fn component_start(p: Seq<char>) -> int {
    if has_drive_prefix(p) {
        2
    } else {
        0
    }
}

/// The final component of a path, unless the path ends in `..` or has none.
pub open spec fn spec_file_name(p: Seq<char>) -> Option<Seq<char>> {
    let (s, e) = name_range(p, component_start(p), p.len() as int);
    if s == e || (e - s == 2 && p[s] == '.' && p[s + 1] == '.') {
        None
    } else {
        Some(p.subrange(s, e))
    }
}

/// Index of the last `.` in `name[0..end]`, or -1.
pub open spec fn last_dot(name: Seq<char>, end: int) -> int
    decreases end,
{
    if end <= 0 {
        -1
    } else if name[end - 1] == '.' {
        end - 1
    } else {
        last_dot(name, end - 1)
    }
}

/// Text after the last `.` of the file name, when that dot is not its first character.
pub open spec fn spec_extension(p: Seq<char>) -> Option<Seq<char>> {
    match spec_file_name(p) {
        Some(name) => {
            let d = last_dot(name, name.len() as int);
            if d <= 0 {
                None
            } else {
                Some(name.subrange(d + 1, name.len() as int))
            }
        },
        None => None,
    }
}

fn seg_start_exec(p: &str, lo: usize, end: usize) -> (s: usize)
    requires
        lo <= end <= p@.len(),
    ensures
        s == seg_start(p@, lo as int, end as int),
        lo <= s <= end,
    decreases end - lo,
{
    if end <= lo {
        lo
    } else if is_sep_char(p.get_char(end - 1)) {
        end
    } else {
        seg_start_exec(p, lo, end - 1)
    }
}

fn name_range_exec(p: &str, lo: usize, end: usize) -> (r: (usize, usize))
    requires
        lo <= end <= p@.len(),
    ensures
        (r.0 as int, r.1 as int) == name_range(p@, lo as int, end as int),
        r.0 <= r.1 <= end,
    decreases end - lo,
{
    if end <= lo {
        (end, end)
    } else {
        let s = seg_start_exec(p, lo, end);
        if s == end || (end - s == 1 && p.get_char(s) == '.') {
            if s <= lo {
                (end, end)
            } else {
                name_range_exec(p, lo, s - 1)
            }
        } else {
            (s, end)
        }
    }
}

fn last_dot_exec(p: &str, start: usize, end: usize) -> (d: Option<usize>)
    requires
        start <= end <= p@.len(),
    ensures
        match d {
            Some(i) => i == last_dot(p@.subrange(start as int, p@.len() as int), end - start),
            None => last_dot(p@.subrange(start as int, p@.len() as int), end - start) == -1,
        },
    decreases end - start,
{
    if end <= start {
        None
    } else if p.get_char(end - 1) == '.' {
        Some(end - 1 - start)
    } else {
        last_dot_exec(p, start, end - 1)
    }
}

/// Bounds of the extension of `path`, as character indices.
fn extension_range(path: &str) -> (r: Option<(usize, usize)>)
    ensures
        match spec_extension(path@) {
            Some(ext) => r matches Some((s, e)) && s <= e <= path@.len() && path@.subrange(
                s as int,
                e as int,
            ) == ext,
            None => r is None,
        },
{
    let len = path.unicode_len();
    let lo: usize = if drive_prefix(path, len) {
        2
    } else {
        0
    };
    let (s, e) = name_range_exec(path, lo, len);
    if s == e || (e - s == 2 && path.get_char(s) == '.' && path.get_char(s + 1) == '.') {
        return None;
    }
    let ghost name = path@.subrange(s as int, e as int);
    let d = last_dot_exec(path, s, e);
    proof {
        let tail = path@.subrange(s as int, path@.len() as int);
        assert forall|k: int| 0 <= k <= e - s implies last_dot(tail, k) == last_dot(name, k) by {
            lemma_last_dot_prefix(tail, name, k);
        }
    }
    proof {
        lemma_last_dot_bounds(name, name.len() as int);
    }
    match d {
        None => None,
        Some(0) => None,
        Some(d) => {
        let start = s + d + 1;
        assert(path@.subrange(start as int, e as int) =~= name.subrange(d + 1, name.len() as int));
        Some((start, e))
        },
    }
}

proof fn lemma_last_dot_bounds(name: Seq<char>, k: int)
    requires
        0 <= k <= name.len(),
    ensures
        -1 <= last_dot(name, k) < k,
    decreases k,
{
    if k > 0 {
        lemma_last_dot_bounds(name, k - 1);
    }
}

proof fn lemma_last_dot_prefix(a: Seq<char>, b: Seq<char>, k: int)
    requires
        0 <= k <= b.len(),
        k <= a.len(),
        forall|i: int| 0 <= i < k ==> a[i] == b[i],
    ensures
        last_dot(a, k) == last_dot(b, k),
    decreases k,
{
    if k > 0 {
        lemma_last_dot_prefix(a, b, k - 1);
    }
}

/// Compares `p[start..end]` with `lit`, ignoring ASCII case.
fn range_eq_ignore_case(p: &str, start: usize, end: usize, lit: &str) -> (equal: bool)
    requires
        start <= end <= p@.len(),
    ensures
        equal == ascii_eq_ignore_case(p@.subrange(start as int, end as int), lit@),
{
    let ghost part = p@.subrange(start as int, end as int);
    let n = lit.unicode_len();
    if end - start != n {
        return false;
    }
    let mut i: usize = 0;
    while i < n
        invariant
            n == lit@.len(),
            n == end - start,
            start <= end <= p@.len(),
            part == p@.subrange(start as int, end as int),
            i <= n,
            forall|j: int|
                0 <= j < i ==> crate::context::ascii_fold(#[trigger] part[j])
                    == crate::context::ascii_fold(lit@[j]),
        decreases n - i,
    {
        let a = p.get_char(start + i);
        let b = lit.get_char(i);
        let fa: u32 = if 'A' <= a && a <= 'Z' {
            (a as u32) + 32
        } else {
            a as u32
        };
        let fb: u32 = if 'A' <= b && b <= 'Z' {
            (b as u32) + 32
        } else {
            b as u32
        };
        assert(part[i as int] == a);
        if fa != fb {
            assert(crate::context::ascii_fold(part[i as int]) != crate::context::ascii_fold(
                lit@[i as int],
            ));
            return false;
        }
        i = i + 1;
    }
    true
}

/// The extension is one of `a` and `b`, ignoring ASCII case.
pub open spec fn extension_is_one_of(p: Seq<char>, a: Seq<char>, b: Seq<char>) -> bool {
    match spec_extension(p) {
        Some(ext) => ascii_eq_ignore_case(ext, a) || ascii_eq_ignore_case(ext, b),
        None => false,
    }
}

/// Whether the extension of `path` is `a` or `b`, ignoring ASCII case.
pub fn has_extension(path: &str, a: &str, b: &str) -> (found: bool)
    ensures
        found == extension_is_one_of(path@, a@, b@),
{
    match extension_range(path) {
        Some((s, e)) => range_eq_ignore_case(path, s, e, a) || range_eq_ignore_case(path, s, e, b),
        None => false,
    }
}

/// Sprite frames are PNG or WebP images.
pub fn is_supported_sprite_asset(path: &str) -> (supported: bool)
    ensures
        supported == extension_is_one_of(path@, "png"@, "webp"@),
{
    match extension_range(path) {
        Some((s, e)) => range_eq_ignore_case(path, s, e, "png") || range_eq_ignore_case(
            path,
            s,
            e,
            "webp",
        ),
        None => false,
    }
}

/// Spine skeletons are binary `.skel` or `.json` exports.
pub fn is_supported_spine_skeleton(path: &str) -> (supported: bool)
    ensures
        supported == extension_is_one_of(path@, "skel"@, "json"@),
{
    match extension_range(path) {
        Some((s, e)) => range_eq_ignore_case(path, s, e, "skel") || range_eq_ignore_case(
            path,
            s,
            e,
            "json",
        ),
        None => false,
    }
}

/// Spine atlases are `.atlas` files.
pub fn is_supported_spine_atlas(path: &str) -> (supported: bool)
    ensures
        supported == extension_is_one_of(path@, "atlas"@, "atlas"@),
{
    match extension_range(path) {
        Some((s, e)) => range_eq_ignore_case(path, s, e, "atlas"),
        None => false,
    }
}

/// 3D models are VRM or binary glTF files.
pub fn is_supported_model3d_asset(path: &str) -> (supported: bool)
    ensures
        supported == extension_is_one_of(path@, "vrm"@, "glb"@),
{
    match extension_range(path) {
        Some((s, e)) => range_eq_ignore_case(path, s, e, "vrm") || range_eq_ignore_case(
            path,
            s,
            e,
            "glb",
        ),
        None => false,
    }
}

/// The relative path `relative` placed under the package directory `root`,
/// with the Windows separator: an empty root leaves the relative path as it
/// is, and no separator is added after a root that ends in one or that is a
/// bare drive such as `C:`.
pub open spec fn spec_join_path(root: Seq<char>, relative: Seq<char>) -> Seq<char> {
    if root.len() == 0 {
        relative
    } else if is_sep(root.last()) || (root.len() == 2 && has_drive_prefix(root)) {
        root + relative
    } else {
        root + "\\"@ + relative
    }
}

pub fn join_path(root: &str, relative: &str) -> (joined: String)
    ensures
        joined@ == spec_join_path(root@, relative@),
{
    let len = root.unicode_len();
    if len == 0 {
        return String::from_str(relative);
    }
    let mut joined = String::from_str(root);
    if !is_sep_char(root.get_char(len - 1)) && !(len == 2 && drive_prefix(root, len)) {
        joined.append("\\");
    }
    joined.append(relative);
    joined
}

/// The final component of a path as a new text, as `Path::file_name` gives
/// it: used for the executable name of the foreground process.
pub fn file_name(path: &str) -> (name: Option<String>)
    ensures
        match spec_file_name(path@) {
            Some(n) => name matches Some(s) && s@ == n,
            None => name is None,
        },
{
    let len = path.unicode_len();
    let lo: usize = if drive_prefix(path, len) {
        2
    } else {
        0
    };
    let (s, e) = name_range_exec(path, lo, len);
    if s == e || (e - s == 2 && path.get_char(s) == '.' && path.get_char(s + 1) == '.') {
        return None;
    }
    Some(String::from_str(path.substring_char(s, e)))
}

} // verus!
