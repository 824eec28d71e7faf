//! Path handling on the textual form of paths, with `/` as the separator.
//!
//! The functions here follow the rules of `std::path::Path` on Unix: repeated
//! separators and `.` components are ignored when looking for the final
//! component, and `..` has no file name.

use vstd::prelude::*;
use crate::text::{ascii_lower_all, chars_eq, chars_of, lower_all, push_chars, push_str, string_of};

verus! {

/// Index of the last `/` in `p[0..end]`, or -1 when there is none.
pub open spec fn last_slash(p: Seq<char>, end: int) -> int
    decreases end,
{
    if end <= 0 {
        -1
    } else if p[end - 1] == '/' {
        end - 1
    } else {
        last_slash(p, end - 1)
    }
}

/// The range `[start, end)` of the final normal component of `p[0..end]`.
pub open spec fn name_range(p: Seq<char>, end: int) -> Option<(int, int)>
    decreases end,
{
    if end <= 0 {
        None
    } else {
        let slash = last_slash(p, end);
        let seg = p.subrange(slash + 1, end);
        if seg.len() == 0 || seg == seq!['.'] {
            if slash < 0 {
                None
            } else {
                proof {
                    lemma_last_slash_bounds(p, end);
                }
                name_range(p, slash)
            }
        } else if seg == seq!['.', '.'] {
            None
        } else {
            Some((slash + 1, end))
        }
    }
}

/// The final component of a path (`Path::file_name`).
pub open spec fn file_name(p: Seq<char>) -> Option<Seq<char>> {
    match name_range(p, p.len() as int) {
        Some((s, e)) => Some(p.subrange(s, e)),
        None => None,
    }
}

/// Index of the last `.` in `name`, or -1.
pub open spec fn last_dot(name: Seq<char>, end: int) -> int
    decreases end,
{
    if end <= 0 {
        -1
    } else if name[end - 1] == '.' {
        end - 1
    } else {
        last_dot(name, end - 1)
    }
}

/// The extension of a file name: the text after its last `.`, unless that
/// dot is the first character (as in `.hidden`) or the name is `..`.
pub open spec fn name_extension(name: Seq<char>) -> Option<Seq<char>> {
    let dot = last_dot(name, name.len() as int);
    if name == seq!['.', '.'] || dot <= 0 {
        None
    } else {
        Some(name.subrange(dot + 1, name.len() as int))
    }
}

/// The stem of a file name: the name without its extension.
pub open spec fn name_stem(name: Seq<char>) -> Seq<char> {
    match name_extension(name) {
        Some(_) => name.subrange(0, last_dot(name, name.len() as int)),
        None => name,
    }
}

/// The extension of a path (`Path::extension`).
pub open spec fn extension(p: Seq<char>) -> Option<Seq<char>> {
    match file_name(p) {
        Some(name) => name_extension(name),
        None => None,
    }
}

/// `Path::join` of a path and a further component.
pub open spec fn join(base: Seq<char>, rel: Seq<char>) -> Seq<char> {
    if rel.len() > 0 && rel[0] == '/' {
        rel
    } else if base.len() > 0 && base.last() != '/' {
        base + seq!['/'] + rel
    } else {
        base + rel
    }
}

/// `Path::with_extension`: the path cut after the stem of its file name,
/// followed by `.` and `ext` (nothing is added for an empty `ext`). A path
/// without a file name is returned unchanged.
pub open spec fn with_extension(p: Seq<char>, ext: Seq<char>) -> Seq<char> {
    match name_range(p, p.len() as int) {
        Some((s, e)) => {
            let cut = p.subrange(0, s) + name_stem(p.subrange(s, e));
            if ext.len() == 0 {
                cut
            } else {
                cut + seq!['.'] + ext
            }
        },
        None => p,
    }
}

fn last_slash_exec(p: &Vec<char>, end: usize) -> (r: Option<usize>)
    requires
        end <= p@.len(),
    ensures
        match r {
            Some(i) => i as int == last_slash(p@, end as int),
            None => last_slash(p@, end as int) == -1,
        },
{
    let mut k = end;
    while k > 0
        invariant
            k <= end <= p@.len(),
            last_slash(p@, end as int) == last_slash(p@, k as int),
        decreases k,
    {
        if p[k - 1] == '/' {
            return Some(k - 1);
        }
        k = k - 1;
    }
    None
}

/// Bounds of `last_slash`.
pub proof fn lemma_last_slash_bounds(p: Seq<char>, end: int)
    ensures
        -1 <= last_slash(p, end) < end || (end <= 0 && last_slash(p, end) == -1),
    decreases end,
{
    if end > 0 && p[end - 1] != '/' {
        lemma_last_slash_bounds(p, end - 1);
    }
}

fn is_dot_segment(p: &Vec<char>, start: usize, end: usize) -> (r: (bool, bool))
    requires
        start <= end <= p@.len(),
    ensures
        r.0 == (p@.subrange(start as int, end as int) == seq!['.']),
        r.1 == (p@.subrange(start as int, end as int) == seq!['.', '.']),
{
    let len = end - start;
    let one = len == 1 && p[start] == '.';
    let two = len == 2 && p[start] == '.' && p[start + 1] == '.';
    proof {
        let seg = p@.subrange(start as int, end as int);
        if seg == seq!['.'] {
            assert(seg.len() == 1 && seg[0] == '.');
        }
        if seg == seq!['.', '.'] {
            assert(seg.len() == 2 && seg[0] == '.' && seg[1] == '.');
        }
        if one {
            assert(seg =~= seq!['.']);
        }
        if two {
            assert(seg =~= seq!['.', '.']);
        }
    }
    (one, two)
}

/// The range of the final normal component of `p`.
fn name_range_exec(p: &Vec<char>) -> (r: Option<(usize, usize)>)
    ensures
        match r {
            Some((s, e)) => name_range(p@, p@.len() as int) == Some((s as int, e as int)),
            None => name_range(p@, p@.len() as int) is None,
        },
{
    let mut end = p.len();
    loop
        invariant
            end <= p@.len(),
            name_range(p@, p@.len() as int) == name_range(p@, end as int),
        decreases end,
    {
        if end == 0 {
            return None;
        }
        let slash = last_slash_exec(p, end);
        proof {
            lemma_last_slash_bounds(p@, end as int);
        }
        let start: usize = match slash {
            Some(i) => i + 1,
            None => 0,
        };
        let (one, two) = is_dot_segment(p, start, end);
        if start == end || one {
            match slash {
                Some(i) => {
                    end = i;
                },
                None => {
                    return None;
                },
            }
        } else if two {
            return None;
        } else {
            return Some((start, end));
        }
    }
}

/// The final component of a path, if it has one (`Path::file_name`).
pub fn file_name_of(path: &str) -> (r: Option<String>)
    ensures
        match r {
            Some(name) => file_name(path@) == Some(name@),
            None => file_name(path@) is None,
        },
{
    let p = chars_of(path);
    match name_range_exec(&p) {
        Some((s, e)) => {
            let mut name = String::new();
            let mut k = s;
            proof {
                assert(name_range(p@, p@.len() as int) == Some((s as int, e as int)));
                lemma_name_range_bounds(p@, p@.len() as int);
            }
            let mut part: Vec<char> = Vec::new();
            while k < e
                invariant
                    s <= k <= e <= p@.len(),
                    part@ == p@.subrange(s as int, k as int),
                decreases e - k,
            {
                part.push(p[k]);
                k = k + 1;
            }
            push_chars(&mut name, &part);
            Some(name)
        },
        None => None,
    }
}

/// Bounds of the range that `name_range` finds.
pub proof fn lemma_name_range_bounds(p: Seq<char>, end: int)
    requires
        end <= p.len(),
    ensures
        match name_range(p, end) {
            Some((s, e)) => 0 <= s < e <= end,
            None => true,
        },
    decreases end,
{
    if end > 0 {
        lemma_last_slash_bounds(p, end);
        let slash = last_slash(p, end);
        let seg = p.subrange(slash + 1, end);
        if seg.len() == 0 || seg == seq!['.'] {
            if slash >= 0 {
                lemma_name_range_bounds(p, slash);
            }
        }
    }
}


/// The characters `p[s..e]`.
pub fn slice_chars(p: &Vec<char>, s: usize, e: usize) -> (r: Vec<char>)
    requires
        s <= e <= p@.len(),
    ensures
        r@ == p@.subrange(s as int, e as int),
{
    let mut part: Vec<char> = Vec::new();
    let mut k = s;
    while k < e
        invariant
            s <= k <= e <= p@.len(),
            part@ == p@.subrange(s as int, k as int),
        decreases e - k,
    {
        part.push(p[k]);
        k = k + 1;
    }
    part
}

fn last_dot_exec(name: &Vec<char>) -> (r: Option<usize>)
    ensures
        match r {
            Some(i) => i as int == last_dot(name@, name@.len() as int) && i < name@.len(),
            None => last_dot(name@, name@.len() as int) == -1,
        },
{
    let mut k = name.len();
    while k > 0
        invariant
            k <= name@.len(),
            last_dot(name@, name@.len() as int) == last_dot(name@, k as int),
        decreases k,
    {
        if name[k - 1] == '.' {
            return Some(k - 1);
        }
        k = k - 1;
    }
    None
}

/// The extension of a file name, if it has one.
pub fn name_extension_of(name: &Vec<char>) -> (r: Option<Vec<char>>)
    ensures
        match r {
            Some(e) => name_extension(name@) == Some(e@),
            None => name_extension(name@) is None,
        },
{
    let dotdot = name.len() == 2 && name[0] == '.' && name[1] == '.';
    proof {
        if name@ == seq!['.', '.'] {
            assert(name@.len() == 2 && name@[0] == '.' && name@[1] == '.');
        }
        if dotdot {
            assert(name@ =~= seq!['.', '.']);
        }
    }
    if dotdot {
        return None;
    }
    match last_dot_exec(name) {
        Some(d) => {
            if d == 0 {
                None
            } else {
                Some(slice_chars(name, d + 1, name.len()))
            }
        },
        None => None,
    }
}

/// The extension of a path (`Path::extension`).
pub fn extension_of(path: &str) -> (r: Option<Vec<char>>)
    ensures
        match r {
            Some(e) => extension(path@) == Some(e@),
            None => extension(path@) is None,
        },
{
    match file_name_of(path) {
        Some(name) => {
            let cs = chars_of(name.as_str());
            name_extension_of(&cs)
        },
        None => None,
    }
}

/// Extensions of the picture formats that are imported, compared without case.
pub open spec fn supported_extension(ext: Seq<char>) -> bool {
    let l = ascii_lower_all(ext);
    l == seq!['j', 'p', 'g'] || l == seq!['j', 'p', 'e', 'g'] || l == seq!['p', 'n', 'g']
}

/// A path names a supported picture when its extension is `jpg`, `jpeg` or
/// `png`, in any letter case.
pub open spec fn supported_image(p: Seq<char>) -> bool {
    match extension(p) {
        Some(e) => supported_extension(e),
        None => false,
    }
}

/// Whether the path names a supported picture (`.jpg`, `.jpeg`, `.png`, any case).
pub fn is_supported_image(path: &str) -> (r: bool)
    ensures
        r == supported_image(path@),
{
    match extension_of(path) {
        Some(e) => {
            let l = lower_all(&e);
            let jpg: Vec<char> = vec!['j', 'p', 'g'];
            let jpeg: Vec<char> = vec!['j', 'p', 'e', 'g'];
            let png: Vec<char> = vec!['p', 'n', 'g'];
            assert(jpg@ == seq!['j', 'p', 'g']);
            assert(jpeg@ == seq!['j', 'p', 'e', 'g']);
            assert(png@ == seq!['p', 'n', 'g']);
            chars_eq(&l, &jpg) || chars_eq(&l, &jpeg) || chars_eq(&l, &png)
        },
        None => false,
    }
}

/// A directory entry is hidden when its name starts with `.`; a name that is
/// not valid text counts as not hidden.
pub open spec fn hidden_name(name: Option<Seq<char>>) -> bool {
    match name {
        Some(n) => n.len() > 0 && n[0] == '.',
        None => false,
    }
}

/// Whether a directory entry with this name is skipped while importing.
pub fn is_hidden(name: Option<&str>) -> (r: bool)
    ensures
        r == hidden_name(
            match name {
                Some(n) => Some(n@),
                None => None,
            },
        ),
{
    match name {
        Some(n) => {
            let cs = chars_of(n);
            cs.len() > 0 && cs[0] == '.'
        },
        None => false,
    }
}

/// A character of the path that `Path::parent` sees as part of the root: a
/// separator, or a `.` that stands alone between separators.
pub open spec fn root_char(p: Seq<char>, i: int) -> bool {
    p[i] == '/' || (p[i] == '.' && i > 0 && p[i - 1] == '/' && (i + 1 == p.len() || p[i + 1] == '/'))
}

/// `Path::parent` gives nothing: the path is empty, or it is the root
/// followed only by separators and `.` components.
pub open spec fn without_parent(p: Seq<char>) -> bool {
    p.len() == 0 || (p[0] == '/' && forall|i: int| 0 <= i < p.len() ==> root_char(p, i))
}

/// Whether the path has a parent folder (`Path::parent` is `Some`).
pub fn has_parent(path: &str) -> (r: bool)
    ensures
        r == !without_parent(path@),
{
    let p = chars_of(path);
    let n = p.len();
    if n == 0 {
        return false;
    }
    if p[0] != '/' {
        return true;
    }
    let mut i: usize = 0;
    while i < n
        invariant
            p@ == path@,
            n == p@.len(),
            n > 0,
            p@[0] == '/',
            i <= n,
            forall|j: int| 0 <= j < i ==> root_char(p@, j),
        decreases n - i,
    {
        let c = p[i];
        let is_root = c == '/' || (c == '.' && i > 0 && p[i - 1] == '/' && (i + 1 == n || p[i + 1] == '/'));
        if !is_root {
            assert(!root_char(p@, i as int));
            return true;
        }
        i = i + 1;
    }
    false
}

/// `Path::join`: `rel` appended to `base` with one separator between them.
pub fn join_path(base: &str, rel: &str) -> (r: String)
    ensures
        r@ == join(base@, rel@),
{
    let b = chars_of(base);
    let c = chars_of(rel);
    if c.len() > 0 && c[0] == '/' {
        return string_of(&c);
    }
    let mut out = string_of(&b);
    if b.len() > 0 && b[b.len() - 1] != '/' {
        crate::text::push_char(&mut out, '/');
    }
    push_chars(&mut out, &c);
    out
}

/// `Path::with_extension`.
pub fn with_extension_of(path: &str, ext: &str) -> (r: String)
    ensures
        r@ == with_extension(path@, ext@),
{
    let p = chars_of(path);
    match name_range_exec(&p) {
        Some((s, e)) => {
            proof {
                lemma_name_range_bounds(p@, p@.len() as int);
            }
            let name = slice_chars(&p, s, e);
            let stem_end: usize = match name_extension_of(&name) {
                Some(_) => {
                    let d = last_dot_exec(&name);
                    match d {
                        Some(i) => i,
                        None => name.len(),
                    }
                },
                None => name.len(),
            };
            proof {
                assert(name_stem(name@) == name@.subrange(0, stem_end as int));
            }
            let mut out = string_of(&slice_chars(&p, 0, s));
            push_chars(&mut out, &slice_chars(&name, 0, stem_end));
            let x = chars_of(ext);
            if x.len() > 0 {
                crate::text::push_char(&mut out, '.');
                push_chars(&mut out, &x);
            }
            out
        },
        None => string_of(&p),
    }
}

} // verus!
