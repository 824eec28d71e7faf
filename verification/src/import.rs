//! Import of pictures into a project: which files count, how new pictures
//! are ordered, and which positions and ids they receive.

use vstd::prelude::*;
use crate::clock::{rfc3339_utc, rfc3339_utc_from_unix};
use crate::image::opt_view;
use crate::text::{chars_of, push_char, push_str, string_of};
use crate::order::{compare_opt_text, compare_text, lemma_opt_text_order, lemma_text_order_antisymmetric, lemma_text_order_transitive, lemma_text_order_zero, opt_text_order, text_order};
use crate::image::{clone_opt, ImageRecord};
use crate::paths::supported_image;
use crate::project::{path_set, Project};
use crate::status::ImageStatus;

verus! {

/// Counts of what an import found.
#[derive(Debug, Clone, Copy, PartialEq, Eq, Structural)]
pub struct ImportSummary {
    pub scanned: usize,
    pub imported: usize,
    pub duplicates: usize,
    pub unsupported: usize,
    pub walk_errors: usize,
}

impl Default for ImportSummary {
    fn default() -> (r: ImportSummary)
        ensures
            r == (ImportSummary {
                scanned: 0,
                imported: 0,
                duplicates: 0,
                unsupported: 0,
                walk_errors: 0,
            }),
    {
        ImportSummary { scanned: 0, imported: 0, duplicates: 0, unsupported: 0, walk_errors: 0 }
    }
}

/// Where the ordering time of a picture came from, and the time itself.
pub struct OrderingMetadata {
    pub timestamp: Option<String>,
    pub source: String,
}

/// A decimal digit character.
pub open spec fn is_digit(c: char) -> bool {
    '0' <= c <= '9'
}

/// The value of the two digits at `i` and `i + 1`.
pub open spec fn two_digits(s: Seq<char>, i: int) -> int {
    (s[i] as int - 48) * 10 + (s[i + 1] as int - 48)
}

/// An EXIF date-time `YYYY:MM:DD HH:MM:SS` with a month in 1..=12, a day in
/// 1..=31, an hour below 24 and minutes and seconds below 60.
pub open spec fn valid_exif_datetime(s: Seq<char>) -> bool {
    &&& s.len() == 19
    &&& forall|i: int|
        0 <= i < 19 && i != 4 && i != 7 && i != 10 && i != 13 && i != 16 ==> is_digit(s[i])
    &&& s[4] == ':' && s[7] == ':' && s[10] == ' ' && s[13] == ':' && s[16] == ':'
    &&& 1 <= two_digits(s, 5) <= 12
    &&& 1 <= two_digits(s, 8) <= 31
    &&& two_digits(s, 11) <= 23
    &&& two_digits(s, 14) <= 59
    &&& two_digits(s, 17) <= 59
}

/// The RFC 3339 form (in UTC, with a `Z`) of a valid EXIF date-time:
/// `YYYY-MM-DDTHH:MM:SSZ`.
pub open spec fn exif_to_rfc3339(s: Seq<char>) -> Option<Seq<char>> {
    if valid_exif_datetime(s) {
        Some(s.update(4, '-').update(7, '-').update(10, 'T').push('Z'))
    } else {
        None
    }
}

fn digit_value(c: char) -> (r: u32)
    requires
        is_digit(c),
    ensures
        r == c as int - 48,
{
    (c as u32) - 48
}

/// The capture time of a picture from its EXIF `DateTimeOriginal` text, in
/// RFC 3339 form; `None` when the text is not a valid date-time.
pub fn exif_capture_time(raw: &str) -> (r: Option<String>)
    ensures
        opt_view(r) == exif_to_rfc3339(raw@),
{
    let s = chars_of(raw);
    if s.len() != 19 {
        return None;
    }
    let mut i: usize = 0;
    while i < 19
        invariant
            s@ == raw@,
            s@.len() == 19,
            i <= 19,
            forall|k: int|
                0 <= k < i && k != 4 && k != 7 && k != 10 && k != 13 && k != 16 ==> is_digit(s@[k]),
        decreases 19 - i,
    {
        if i != 4 && i != 7 && i != 10 && i != 13 && i != 16 {
            if !('0' <= s[i] && s[i] <= '9') {
                return None;
            }
        }
        i = i + 1;
    }
    if !(s[4] == ':' && s[7] == ':' && s[10] == ' ' && s[13] == ':' && s[16] == ':') {
        return None;
    }
    let month = digit_value(s[5]) * 10 + digit_value(s[6]);
    let day = digit_value(s[8]) * 10 + digit_value(s[9]);
    let hour = digit_value(s[11]) * 10 + digit_value(s[12]);
    let minute = digit_value(s[14]) * 10 + digit_value(s[15]);
    let second = digit_value(s[17]) * 10 + digit_value(s[18]);
    if !(1 <= month && month <= 12 && 1 <= day && day <= 31 && hour <= 23 && minute <= 59
        && second <= 59) {
        return None;
    }
    let mut out = String::new();
    let mut k: usize = 0;
    let ghost target = raw@.update(4, '-').update(7, '-').update(10, 'T');
    while k < 19
        invariant
            s@ == raw@,
            s@.len() == 19,
            k <= 19,
            target == raw@.update(4, '-').update(7, '-').update(10, 'T'),
            out@ == target.subrange(0, k as int),
        decreases 19 - k,
    {
        let c = if k == 4 || k == 7 {
            '-'
        } else if k == 10 {
            'T'
        } else {
            s[k]
        };
        push_char(&mut out, c);
        k = k + 1;
        assert(out@ =~= target.subrange(0, k as int));
    }
    push_char(&mut out, 'Z');
    assert(out@ =~= target.push('Z'));
    Some(out)
}

/// The ordering time of a picture: the EXIF capture time when it is valid,
/// else the file's modification time, else none (the path decides).
pub open spec fn ordering_for(exif: Option<Seq<char>>, modified: Option<int>) -> (
    Option<Seq<char>>,
    Seq<char>,
) {
    let from_exif = match exif {
        Some(e) => exif_to_rfc3339(e),
        None => None,
    };
    let from_mtime = match modified {
        Some(m) => rfc3339_utc(m),
        None => None,
    };
    match from_exif {
        Some(t) => (Some(t), seq!['e', 'x', 'i', 'f']),
        None => match from_mtime {
            Some(t) => (Some(t), seq!['m', 't', 'i', 'm', 'e']),
            None => (None, seq!['p', 'a', 't', 'h']),
        },
    }
}

/// The ordering time and its source for a picture, from the raw EXIF
/// `DateTimeOriginal` text and the modification time in seconds since the
/// Unix epoch, when the file has them.
pub fn ordering_metadata(exif_datetime: Option<&str>, modified_unix_seconds: Option<i64>) -> (r:
    OrderingMetadata)
    ensures
        (opt_view(r.timestamp), r.source@) == ordering_for(
            match exif_datetime {
                Some(e) => Some(e@),
                None => None,
            },
            match modified_unix_seconds {
                Some(m) => Some(m as int),
                None => None,
            },
        ),
{
    let from_exif = match exif_datetime {
        Some(e) => exif_capture_time(e),
        None => None,
    };
    match from_exif {
        Some(t) => {
            return OrderingMetadata { timestamp: Some(t), source: string_of(&vec!['e', 'x', 'i', 'f']) };
        },
        None => {},
    }
    let from_mtime = match modified_unix_seconds {
        Some(m) => rfc3339_utc_from_unix(m),
        None => None,
    };
    match from_mtime {
        Some(t) => OrderingMetadata {
            timestamp: Some(t),
            source: string_of(&vec!['m', 't', 'i', 'm', 'e']),
        },
        None => OrderingMetadata { timestamp: None, source: string_of(&vec!['p', 'a', 't', 'h']) },
    }
}


/// The ASCII strings of the primary `DateTimeOriginal` EXIF field found in
/// the bytes of an image file; `None` when the bytes hold no readable EXIF
/// data or the field is absent or not of ASCII type.
pub uninterp spec fn exif_date_time_original(bytes: Seq<u8>) -> Option<Seq<Seq<u8>>>;

/// `exif::Reader::read_from_container` on the bytes, then
/// `Exif::get_field(Tag::DateTimeOriginal, In::PRIMARY)`, keeping the strings
/// of an `exif::Value::Ascii` value (without their trailing NUL). The
/// contract only says that the result is `exif_date_time_original` of the
/// bytes.
#[verifier::external_body]
fn read_date_time_original(bytes: &[u8]) -> (r: Option<Vec<Vec<u8>>>)
    ensures
        match r {
            Some(v) => exif_date_time_original(bytes@) == Some(v.deep_view()),
            None => exif_date_time_original(bytes@) is None,
        },
{
    let mut cursor = std::io::Cursor::new(bytes);
    let exif = exif::Reader::new().read_from_container(&mut cursor).ok()?;
    let field = exif.get_field(exif::Tag::DateTimeOriginal, exif::In::PRIMARY)?;
    match &field.value {
        exif::Value::Ascii(parts) => Some(parts.clone()),
        _ => None,
    }
}

/// The text of bytes that are all 7-bit ASCII; `None` when one is not.
pub open spec fn ascii_text(b: Seq<u8>) -> Option<Seq<char>> {
    if forall|i: int| 0 <= i < b.len() ==> b[i] < 128 {
        Some(b.map_values(|x: u8| x as char))
    } else {
        None
    }
}

/// The date-time text of an EXIF ASCII field: its first string, when that
/// string is ASCII.
pub open spec fn field_text(parts: Option<Seq<Seq<u8>>>) -> Option<Seq<char>> {
    match parts {
        Some(p) => if p.len() > 0 {
            ascii_text(p[0])
        } else {
            None
        },
        None => None,
    }
}

/// The text of ASCII bytes (see `ascii_text`).
fn ascii_string(b: &Vec<u8>) -> (r: Option<String>)
    ensures
        opt_view(r) == ascii_text(b@),
{
    let mut out = String::new();
    let mut i: usize = 0;
    while i < b.len()
        invariant
            i <= b@.len(),
            forall|k: int| 0 <= k < i ==> b@[k] < 128,
            out@ == b@.subrange(0, i as int).map_values(|x: u8| x as char),
        decreases b.len() - i,
    {
        let x = b[i];
        if x >= 128 {
            assert(b@[i as int] >= 128);
            return None;
        }
        push_char(&mut out, x as char);
        i = i + 1;
        assert(out@ =~= b@.subrange(0, i as int).map_values(|x: u8| x as char));
    }
    assert(b@.subrange(0, b@.len() as int) =~= b@);
    Some(out)
}

/// The date-time text of the strings of an EXIF ASCII field (see `field_text`).
pub fn date_time_text(parts: Option<Vec<Vec<u8>>>) -> (r: Option<String>)
    ensures
        opt_view(r) == field_text(
            match parts {
                Some(v) => Some(v.deep_view()),
                None => None,
            },
        ),
{
    match parts {
        Some(strings) => {
            if strings.len() == 0 {
                None
            } else {
                assert(strings.deep_view()[0] == strings@[0]@);
                ascii_string(&strings[0])
            }
        },
        None => None,
    }
}

/// The ordering time and its source for a picture, from the bytes of its
/// file and its modification time in seconds since the Unix epoch: the
/// EXIF capture time first, then the modification time (see `ordering_for`).
pub fn ordering_from_file(bytes: &[u8], modified_unix_seconds: Option<i64>) -> (r: OrderingMetadata)
    ensures
        (opt_view(r.timestamp), r.source@) == ordering_for(
            field_text(exif_date_time_original(bytes@)),
            match modified_unix_seconds {
                Some(m) => Some(m as int),
                None => None,
            },
        ),
{
    let parts = read_date_time_original(bytes);
    let text = date_time_text(parts);
    match text {
        Some(t) => ordering_metadata(Some(t.as_str()), modified_unix_seconds),
        None => ordering_metadata(None, modified_unix_seconds),
    }
}

/// A picture found by an import that is not yet in the project.
pub struct NewImage {
    pub path: String,
    pub ordering_timestamp: Option<String>,
    pub ordering_source: String,
}

/// The content of a `NewImage`.
pub struct CandidateView {
    pub path: Seq<char>,
    pub ordering_timestamp: Option<Seq<char>>,
    pub ordering_source: Seq<char>,
}

impl View for NewImage {
    type V = CandidateView;

    open spec fn view(&self) -> CandidateView {
        CandidateView {
            path: self.path@,
            ordering_timestamp: opt_view(self.ordering_timestamp),
            ordering_source: self.ordering_source@,
        }
    }
}

impl Clone for NewImage {
    fn clone(&self) -> (r: Self)
        ensures
            r@ == self@,
    {
        NewImage {
            path: self.path.clone(),
            ordering_timestamp: clone_opt(&self.ordering_timestamp),
            ordering_source: self.ordering_source.clone(),
        }
    }
}

/// Import order of two new pictures: by ordering time (pictures without one
/// first), then by path.
pub open spec fn candidate_order(a: CandidateView, b: CandidateView) -> int {
    let t = opt_text_order(a.ordering_timestamp, b.ordering_timestamp);
    if t != 0 {
        t
    } else {
        text_order(a.path, b.path)
    }
}

/// Picture `i` of `c` is imported before picture `j`: it is smaller in
/// import order, or equal in it and found earlier.
pub open spec fn comes_before(c: Seq<CandidateView>, i: int, j: int) -> bool {
    candidate_order(c[i], c[j]) < 0 || (candidate_order(c[i], c[j]) == 0 && i < j)
}

/// `idx` lists every index below `n` exactly once.
pub open spec fn is_index_permutation(idx: Seq<int>, n: int) -> bool {
    &&& idx.len() == n
    &&& forall|k: int| 0 <= k < n ==> 0 <= #[trigger] idx[k] < n
    &&& forall|a: int, b: int| 0 <= a < n && 0 <= b < n && a != b ==> idx[a] != idx[b]
}

/// `output` is `input` in import order, pictures equal in that order keeping
/// the order in which they were found.
pub open spec fn import_ordered(input: Seq<CandidateView>, output: Seq<CandidateView>) -> bool {
    exists|idx: Seq<int>|
        {
            &&& is_index_permutation(idx, input.len() as int)
            &&& output.len() == input.len()
            &&& forall|k: int| 0 <= k < output.len() ==> output[k] == input[#[trigger] idx[k]]
            &&& forall|a: int, b: int|
                0 <= a < b < output.len() ==> comes_before(input, idx[a], idx[b])
        }
}

/// `candidate_order` is an order on (ordering time, path) keys.
pub proof fn lemma_candidate_order(a: CandidateView, b: CandidateView, c: CandidateView)
    ensures
        candidate_order(a, b) == -candidate_order(b, a),
        candidate_order(a, b) == 0 ==> a.ordering_timestamp == b.ordering_timestamp && a.path
            == b.path,
        candidate_order(a, b) == 0 ==> candidate_order(a, c) == candidate_order(b, c),
        candidate_order(a, b) < 0 && candidate_order(b, c) < 0 ==> candidate_order(a, c) < 0,
{
    lemma_opt_text_order(a.ordering_timestamp, b.ordering_timestamp, c.ordering_timestamp);
    lemma_opt_text_order(b.ordering_timestamp, a.ordering_timestamp, c.ordering_timestamp);
    lemma_opt_text_order(a.ordering_timestamp, c.ordering_timestamp, b.ordering_timestamp);
    lemma_opt_text_order(b.ordering_timestamp, c.ordering_timestamp, a.ordering_timestamp);
    lemma_text_order_antisymmetric(a.path, b.path);
    lemma_text_order_zero(a.path, b.path);
    if candidate_order(a, b) < 0 && candidate_order(b, c) < 0 {
        if opt_text_order(a.ordering_timestamp, b.ordering_timestamp) == 0
            && opt_text_order(b.ordering_timestamp, c.ordering_timestamp) == 0 {
            lemma_text_order_transitive(a.path, b.path, c.path);
        }
    }
}

/// `comes_before` is a strict total order on the indices of `c`.
pub proof fn lemma_comes_before(c: Seq<CandidateView>, i: int, j: int, k: int)
    requires
        0 <= i < c.len(),
        0 <= j < c.len(),
        0 <= k < c.len(),
    ensures
        !comes_before(c, i, i),
        i != j ==> (comes_before(c, i, j) || comes_before(c, j, i)),
        comes_before(c, i, j) ==> !comes_before(c, j, i),
        comes_before(c, i, j) && comes_before(c, j, k) ==> comes_before(c, i, k),
{
    lemma_candidate_order(c[i], c[j], c[k]);
    lemma_candidate_order(c[j], c[k], c[i]);
    lemma_candidate_order(c[i], c[k], c[j]);
    lemma_candidate_order(c[j], c[i], c[k]);
    lemma_candidate_order(c[k], c[j], c[i]);
    lemma_candidate_order(c[i], c[i], c[i]);
}

fn compare_candidates(
    ts: &Vec<Option<Vec<char>>>,
    paths: &Vec<Vec<char>>,
    a: usize,
    b: usize,
    Ghost(c): Ghost<Seq<CandidateView>>,
) -> (r: i8)
    requires
        ts@.len() == c.len(),
        paths@.len() == c.len(),
        a < c.len(),
        b < c.len(),
        forall|k: int|
            0 <= k < c.len() ==> (match #[trigger] ts@[k] {
                Some(x) => Some(x@),
                None => None,
            }) == c[k].ordering_timestamp && paths@[k]@ == c[k].path,
    ensures
        r as int == candidate_order(c[a as int], c[b as int]),
{
    let t = compare_opt_text(&ts[a], &ts[b]);
    if t != 0 {
        t
    } else {
        compare_text(&paths[a], &paths[b])
    }
}

/// The new pictures in import order: by ordering time (pictures without one
/// first), then by path, equal ones in the order they were found.
pub fn sort_candidates(input: Vec<NewImage>) -> (r: Vec<NewImage>)
    ensures
        import_ordered(input@.map_values(|x: NewImage| x@), r@.map_values(|x: NewImage| x@)),
{
    let ghost c = input@.map_values(|x: NewImage| x@);
    let n = input.len();
    let mut ts: Vec<Option<Vec<char>>> = Vec::new();
    let mut paths: Vec<Vec<char>> = Vec::new();
    let mut i: usize = 0;
    while i < n
        invariant
            n == input@.len(),
            c == input@.map_values(|x: NewImage| x@),
            i <= n,
            ts@.len() == i,
            paths@.len() == i,
            forall|k: int|
                0 <= k < i ==> (match #[trigger] ts@[k] {
                    Some(x) => Some(x@),
                    None => None,
                }) == c[k].ordering_timestamp && paths@[k]@ == c[k].path,
        decreases n - i,
    {
        let t = match &input[i].ordering_timestamp {
            Some(x) => Some(chars_of(x.as_str())),
            None => None,
        };
        ts.push(t);
        paths.push(chars_of(input[i].path.as_str()));
        i = i + 1;
    }
    let mut idx: Vec<usize> = Vec::new();
    let mut i: usize = 0;
    while i < n
        invariant
            n == input@.len(),
            c == input@.map_values(|x: NewImage| x@),
            ts@.len() == n,
            paths@.len() == n,
            forall|k: int|
                0 <= k < n ==> (match #[trigger] ts@[k] {
                    Some(x) => Some(x@),
                    None => None,
                }) == c[k].ordering_timestamp && paths@[k]@ == c[k].path,
            i <= n,
            idx@.len() == i,
            forall|k: int| 0 <= k < i ==> #[trigger] idx@[k] < i,
            forall|a: int, b: int| 0 <= a < i && 0 <= b < i && a != b ==> idx@[a] != idx@[b],
            forall|a: int, b: int|
                0 <= a < b < i ==> comes_before(c, idx@[a] as int, idx@[b] as int),
        decreases n - i,
    {
        let mut lo: usize = 0;
        let mut hi: usize = i;
        while lo < hi
            invariant
                n == input@.len(),
                c.len() == n,
                ts@.len() == n,
                paths@.len() == n,
                forall|k: int|
                    0 <= k < n ==> (match #[trigger] ts@[k] {
                        Some(x) => Some(x@),
                        None => None,
                    }) == c[k].ordering_timestamp && paths@[k]@ == c[k].path,
                i < n,
                idx@.len() == i,
                forall|k: int| 0 <= k < i ==> #[trigger] idx@[k] < i,
                forall|a: int, b: int|
                    0 <= a < b < i ==> comes_before(c, idx@[a] as int, idx@[b] as int),
                0 <= lo <= hi <= i,
                forall|k: int| 0 <= k < lo ==> comes_before(c, #[trigger] idx@[k] as int, i as int),
                forall|k: int| hi <= k < i ==> comes_before(c, i as int, #[trigger] idx@[k] as int),
            decreases hi - lo,
        {
            let mid = lo + (hi - lo) / 2;
            let o = compare_candidates(&ts, &paths, i, idx[mid], Ghost(c));
            if o < 0 {
                proof {
                    assert forall|k: int| mid <= k < i implies comes_before(c, i as int, #[trigger] idx@[k] as int) by {
                        if k > mid {
                            lemma_comes_before(c, i as int, idx@[mid as int] as int, idx@[k] as int);
                        }
                    }
                }
                hi = mid;
            } else {
                proof {
                    lemma_comes_before(c, idx@[mid as int] as int, i as int, i as int);
                    assert(comes_before(c, idx@[mid as int] as int, i as int));
                    assert forall|k: int| 0 <= k <= mid implies comes_before(c, #[trigger] idx@[k] as int, i as int) by {
                        if k < mid {
                            lemma_comes_before(c, idx@[k] as int, idx@[mid as int] as int, i as int);
                        }
                    }
                }
                lo = mid + 1;
            }
        }
        let ghost before = idx@;
        idx.insert(lo, i);
        proof {
            assert(idx@ == before.insert(lo as int, i));
            assert forall|a: int, b: int| 0 <= a < b < i + 1 implies comes_before(c, idx@[a] as int, idx@[b] as int) by {
                if b < lo {
                    assert(idx@[a] == before[a] && idx@[b] == before[b]);
                } else if b == lo {
                    assert(idx@[a] == before[a]);
                } else if a < lo {
                    assert(idx@[a] == before[a] && idx@[b] == before[b - 1]);
                    assert(comes_before(c, before[a] as int, i as int));
                    assert(comes_before(c, i as int, before[b - 1] as int));
                    lemma_comes_before(c, before[a] as int, i as int, before[b - 1] as int);
                } else if a == lo {
                    assert(idx@[b] == before[b - 1]);
                } else {
                    assert(idx@[a] == before[a - 1] && idx@[b] == before[b - 1]);
                }
            }
            assert forall|a: int, b: int| 0 <= a < i + 1 && 0 <= b < i + 1 && a != b implies idx@[a] != idx@[b] by {
                if a != lo as int && b != lo as int {
                    let a2 = if a < lo { a } else { a - 1 };
                    let b2 = if b < lo { b } else { b - 1 };
                    assert(idx@[a] == before[a2] && idx@[b] == before[b2]);
                } else if a == lo {
                    let b2 = if b < lo { b } else { b - 1 };
                    assert(idx@[b] == before[b2]);
                } else {
                    let a2 = if a < lo { a } else { a - 1 };
                    assert(idx@[a] == before[a2]);
                }
            }
            assert forall|k: int| 0 <= k < i + 1 implies #[trigger] idx@[k] < i + 1 by {
                if k < lo {
                    assert(idx@[k] == before[k]);
                } else if k > lo {
                    assert(idx@[k] == before[k - 1]);
                }
            }
        }
        i = i + 1;
    }
    let mut out: Vec<NewImage> = Vec::new();
    let mut k: usize = 0;
    while k < n
        invariant
            n == input@.len(),
            c == input@.map_values(|x: NewImage| x@),
            idx@.len() == n,
            forall|j: int| 0 <= j < n ==> #[trigger] idx@[j] < n,
            k <= n,
            out@.len() == k,
            forall|j: int| 0 <= j < k ==> out@[j]@ == c[#[trigger] idx@[j] as int],
        decreases n - k,
    {
        let x = input[idx[k]].clone();
        out.push(x);
        k = k + 1;
    }
    proof {
        let perm = idx@.map_values(|u: usize| u as int);
        let outv = out@.map_values(|x: NewImage| x@);
        assert(is_index_permutation(perm, n as int));
        assert forall|j: int| 0 <= j < outv.len() implies outv[j] == c[#[trigger] perm[j]] by {
            assert(out@[j]@ == c[idx@[j] as int]);
        }
        assert forall|a: int, b: int| 0 <= a < b < outv.len() implies comes_before(c, perm[a], perm[b]) by {
            assert(comes_before(c, idx@[a] as int, idx@[b] as int));
        }
        assert(outv.len() == c.len());
        assert(is_index_permutation(perm, c.len() as int) && outv.len() == c.len() && (forall|k: int| 0 <= k < outv.len() ==> outv[k] == c[#[trigger] perm[k]]) && (forall|a: int, b: int| 0 <= a < b < outv.len() ==> comes_before(c, perm[a], perm[b])));
    }
    out
}


/// Where a scan stands with the file it was last given.
#[derive(Debug, PartialEq, Eq)]
pub enum ScanStage {
    /// Between files.
    Idle,
    /// A supported file awaits its check against the project.
    Supported,
    /// A new picture, by its canonical path, awaits its ordering data.
    New { canonical_path: String },
}

/// What an import has found so far: the counts, the new pictures that will
/// be added, and where it stands with the current file.
pub struct ImportScan {
    pub summary: ImportSummary,
    pub candidates: Vec<NewImage>,
    pub stage: ScanStage,
}

/// The views of a list of new pictures.
pub open spec fn candidate_views(v: Seq<NewImage>) -> Seq<CandidateView> {
    v.map_values(|x: NewImage| x@)
}

impl ImportScan {
    /// The bookkeeping of a scan: nothing is imported yet, every new picture
    /// is a supported picture, and every scanned file is counted once, as
    /// unsupported, as a duplicate, as a new picture, or as the file in hand.
    pub open spec fn wf(&self) -> bool {
        &&& self.summary.imported == 0
        &&& forall|k: int|
            0 <= k < self.candidates@.len() ==> supported_image(#[trigger] self.candidates@[k].path@)
        &&& self.summary.scanned == self.summary.unsupported + self.summary.duplicates
            + self.candidates@.len() + if self.stage is Idle {
            0int
        } else {
            1int
        }
        &&& (self.stage matches ScanStage::New { canonical_path } ==> supported_image(canonical_path@))
    }

    /// A scan between files, ready to be imported.
    pub open spec fn settled(&self) -> bool {
        self.wf() && self.stage is Idle
    }

    /// A scan that has found nothing yet.
    pub fn new() -> (r: ImportScan)
        ensures
            r.summary == (ImportSummary {
                scanned: 0,
                imported: 0,
                duplicates: 0,
                unsupported: 0,
                walk_errors: 0,
            }),
            r.candidates@.len() == 0,
            r.stage is Idle,
            r.settled(),
    {
        ImportScan {
            summary: ImportSummary {
                scanned: 0,
                imported: 0,
                duplicates: 0,
                unsupported: 0,
                walk_errors: 0,
            },
            candidates: Vec::new(),
            stage: ScanStage::Idle,
        }
    }

    /// Counts an entry of the folder that could not be read.
    pub fn record_walk_error(&mut self)
        requires
            old(self).wf(),
            old(self).summary.walk_errors < usize::MAX,
        ensures
            final(self).wf(),
            final(self).summary == (ImportSummary {
                walk_errors: (old(self).summary.walk_errors + 1) as usize,
                ..old(self).summary
            }),
            final(self).candidates == old(self).candidates,
            final(self).stage == old(self).stage,
    {
        self.summary.walk_errors = self.summary.walk_errors + 1;
    }

    /// Counts a file found in the folder; tells whether it is a supported
    /// picture (unsupported files are counted as such). A supported file is
    /// then in hand until `record_supported` has checked it.
    pub fn record_file(&mut self, path: &str) -> (supported: bool)
        requires
            old(self).settled(),
            old(self).summary.scanned < usize::MAX,
            old(self).summary.unsupported < usize::MAX,
        ensures
            final(self).wf(),
            supported == supported_image(path@),
            final(self).summary == (ImportSummary {
                scanned: (old(self).summary.scanned + 1) as usize,
                unsupported: (old(self).summary.unsupported + if supported {
                    0int
                } else {
                    1int
                }) as usize,
                ..old(self).summary
            }),
            final(self).candidates == old(self).candidates,
            final(self).stage == if supported {
                ScanStage::Supported
            } else {
                ScanStage::Idle
            },
    {
        self.summary.scanned = self.summary.scanned + 1;
        let supported = crate::paths::is_supported_image(path);
        if !supported {
            self.summary.unsupported = self.summary.unsupported + 1;
        } else {
            self.stage = ScanStage::Supported;
        }
        supported
    }

    /// Checks the supported file in hand, by its canonical path, against the
    /// project; tells whether it is a new picture, which then awaits its
    /// ordering data. A picture already in the project counts as a
    /// duplicate; a canonical path that does not name a supported picture
    /// (a file reached under another name) counts as unsupported.
    pub fn record_supported(&mut self, project: &Project, canonical_path: &str) -> (is_new: bool)
        requires
            project.wf(),
            old(self).wf(),
            old(self).stage is Supported,
            old(self).summary.duplicates < usize::MAX,
            old(self).summary.unsupported < usize::MAX,
        ensures
            final(self).wf(),
            ({
                let supported = supported_image(canonical_path@);
                let known = exists|i: int|
                    0 <= i < project@.images.len() && project@.images[i].path == canonical_path@;
                &&& is_new == (supported && !known)
                &&& final(self).summary == (ImportSummary {
                    unsupported: (old(self).summary.unsupported + if supported {
                        0int
                    } else {
                        1int
                    }) as usize,
                    duplicates: (old(self).summary.duplicates + if supported && known {
                        1int
                    } else {
                        0int
                    }) as usize,
                    ..old(self).summary
                })
            }),
            final(self).candidates == old(self).candidates,
            if is_new {
                final(self).stage matches ScanStage::New { canonical_path: p } && p@ == canonical_path@
            } else {
                final(self).stage is Idle
            },
    {
        if !crate::paths::is_supported_image(canonical_path) {
            self.summary.unsupported = self.summary.unsupported + 1;
            self.stage = ScanStage::Idle;
            false
        } else if project.path_exists(canonical_path) {
            self.summary.duplicates = self.summary.duplicates + 1;
            self.stage = ScanStage::Idle;
            false
        } else {
            self.stage = ScanStage::New {
                canonical_path: crate::text::string_of(&chars_of(canonical_path)),
            };
            true
        }
    }

    /// Adds the new picture in hand with its ordering data.
    pub fn add_candidate(&mut self, ordering: OrderingMetadata)
        requires
            old(self).wf(),
            old(self).stage is New,
        ensures
            final(self).settled(),
            final(self).summary == old(self).summary,
            match old(self).stage {
                ScanStage::New { canonical_path } => final(self).candidates@ == old(self).candidates@.push(
                    NewImage {
                        path: canonical_path,
                        ordering_timestamp: ordering.timestamp,
                        ordering_source: ordering.source,
                    },
                ),
                _ => false,
            },
    {
        let mut stage = ScanStage::Idle;
        std::mem::swap(&mut stage, &mut self.stage);
        match stage {
            ScanStage::New { canonical_path } => {
                let ghost before = self.candidates@;
                self.candidates.push(
                    NewImage {
                        path: canonical_path,
                        ordering_timestamp: ordering.timestamp,
                        ordering_source: ordering.source,
                    },
                );
                assert forall|k: int| 0 <= k < self.candidates@.len() implies supported_image(
                    #[trigger] self.candidates@[k].path@,
                ) by {
                    if k < before.len() {
                        assert(self.candidates@[k] == before[k]);
                    }
                }
            },
            _ => {},
        }
    }
}

/// The row an import adds for a new picture.
pub open spec fn new_record(c: CandidateView, id: int, position: int, now: Seq<char>) -> ImageRecord {
    ImageRecord {
        id: id,
        path: c.path,
        status: ImageStatus::Unseen,
        position: position,
        ordering_timestamp: c.ordering_timestamp,
        ordering_source: c.ordering_source,
        last_error: None,
        created_at: now,
        updated_at: now,
    }
}

/// The table after the new pictures `sorted`, in this order, are added one
/// by one: the k-th gets position `base + k + 1`; a picture whose path is
/// already in the table is left out, and the others get consecutive ids
/// from `next_id`.
pub open spec fn insert_or_ignore(
    images: Seq<ImageRecord>,
    sorted: Seq<CandidateView>,
    base: int,
    next_id: int,
    now: Seq<char>,
) -> Seq<ImageRecord>
    decreases sorted.len(),
{
    if sorted.len() == 0 {
        images
    } else {
        let prev = insert_or_ignore(images, sorted.drop_last(), base, next_id, now);
        let c = sorted.last();
        if path_set(prev).contains(c.path) {
            prev
        } else {
            prev.push(new_record(c, next_id + (prev.len() - images.len()), base + sorted.len(), now))
        }
    }
}

/// The largest position of a table, or 0 for an empty table.
pub open spec fn max_position(images: Seq<ImageRecord>) -> int
    decreases images.len(),
{
    if images.len() == 0 {
        0
    } else if images.len() == 1 {
        images[0].position
    } else {
        let m = max_position(images.drop_last());
        if images.last().position > m {
            images.last().position
        } else {
            m
        }
    }
}

} // verus!
