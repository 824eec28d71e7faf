//! Properties that hold across the operations of the library.

use vstd::prelude::*;
use crate::cli::{parse_spec, CommandView};
use crate::export::{export_name, manifest_lines, selected_of, ManifestRow};
use crate::paths::extension;
use crate::report::status_lines_spec;
use crate::session::{status_for, ChoiceAction};
use crate::text::{ascii_lower_all, signed_decimal};
use crate::image::ImageRecord;
use crate::import::{candidate_views, comes_before, import_ordered, is_index_permutation, insert_or_ignore, max_position, CandidateView, ImportScan, ImportSummary};
use crate::paths::supported_image;
use crate::paths::file_name;
use crate::project::{
    count_status, counts_match, first_in_queue, import_outcome, in_queue, lemma_counts_sum, path_set,
    positions_ordered, queue_answer, status_change, update_id, ProjectView,
};
use crate::status::{ImageStatus, StatusCounts};
use crate::text::{decimal, digit_char, zero_padded};

verus! {

/// An import never changes the pictures already in the project: their
/// decisions, positions and ids stay as they were. The pictures it adds are
/// new (their paths were not in the project), unseen, without a stored
/// error, placed after every earlier position in import order, and
/// numbered with consecutive ids from `next_id`.
pub proof fn law_import_keeps_existing_rows(
    images: Seq<ImageRecord>,
    sorted: Seq<CandidateView>,
    base: int,
    next_id: int,
    now: Seq<char>,
)
    ensures
        ({
            let r = insert_or_ignore(images, sorted, base, next_id, now);
            &&& r.len() >= images.len()
            &&& r.subrange(0, images.len() as int) == images
            &&& forall|k: int|
                images.len() <= k < r.len() ==> {
                    &&& (#[trigger] r[k]).status == ImageStatus::Unseen
                    &&& r[k].last_error is None
                    &&& base < r[k].position <= base + sorted.len()
                    &&& r[k].id == next_id + (k - images.len())
                    &&& !path_set(images).contains(r[k].path)
                }
            &&& forall|a: int, b: int|
                images.len() <= a < b < r.len() ==> r[a].position < r[b].position
        }),
    decreases sorted.len(),
{
    if sorted.len() > 0 {
        law_import_keeps_existing_rows(images, sorted.drop_last(), base, next_id, now);
        let prev = insert_or_ignore(images, sorted.drop_last(), base, next_id, now);
        let r = insert_or_ignore(images, sorted, base, next_id, now);
        let c = sorted.last();
        if !path_set(prev).contains(c.path) {
            assert(r == prev.push(
                crate::import::new_record(c, next_id + (prev.len() - images.len()), base + sorted.len(), now),
            ));
            assert(r.subrange(0, images.len() as int) =~= prev.subrange(0, images.len() as int));
            assert forall|k: int| images.len() <= k < r.len() implies !path_set(images).contains(r[k].path) by {
                if k == r.len() - 1 {
                    if path_set(images).contains(c.path) {
                        let i = choose|i: int| 0 <= i < images.len() && images[i].path == c.path;
                        assert(prev[i] == images[i]);
                        assert(prev[i].path == c.path);
                    }
                } else {
                    assert(r[k] == prev[k]);
                }
            }
            assert forall|a: int, b: int| images.len() <= a < b < r.len() implies r[a].position < r[b].position by {
                if b == r.len() - 1 {
                    assert(r[a] == prev[a]);
                } else {
                    assert(r[a] == prev[a] && r[b] == prev[b]);
                }
            }
        }
    }
}

/// An import, whether it succeeds or is refused, keeps every picture that
/// was in the project: same id, path, decision, position and stored error,
/// in the same order. The pictures it adds come after them, unseen, at
/// positions above every earlier one.
pub proof fn law_import_preserves_decisions(
    before: ProjectView,
    after: ProjectView,
    summary: ImportSummary,
    sorted: Seq<CandidateView>,
    now: Seq<char>,
    r: Result<ImportSummary, crate::error::Error>,
)
    requires
        import_outcome(before, after, summary, sorted, now, r),
    ensures
        after.images.len() >= before.images.len(),
        after.images.subrange(0, before.images.len() as int) == before.images,
        forall|k: int|
            before.images.len() <= k < after.images.len() ==> (#[trigger] after.images[k]).status
                == ImageStatus::Unseen && after.images[k].position > max_position(before.images),
{
    law_import_keeps_existing_rows(before.images, sorted, max_position(before.images), before.next_id, now);
    if r is Err {
        assert(before.images.subrange(0, before.images.len() as int) =~= before.images);
    }
}

/// Importing pictures that are all in the project already adds nothing:
/// the project stays the same, no picture counts as imported and every one
/// counts as a duplicate.
pub proof fn law_reimport_adds_nothing(
    before: ProjectView,
    after: ProjectView,
    summary: ImportSummary,
    sorted: Seq<CandidateView>,
    now: Seq<char>,
    r: Result<ImportSummary, crate::error::Error>,
)
    requires
        forall|k: int| 0 <= k < sorted.len() ==> path_set(before.images).contains(#[trigger] sorted[k].path),
        import_outcome(before, after, summary, sorted, now, r),
        before.next_id <= i64::MAX + 1,
    ensures
        r matches Ok(s) && s.imported == summary.imported && s.duplicates == (summary.duplicates
            + sorted.len()) as usize,
        after == before,
{
    lemma_insert_nothing_new(before.images, sorted, crate::import::max_position(before.images), before.next_id, now);
    assert(r is Ok);
    assert(after.images == before.images);
    assert(after.next_id == before.next_id);
    assert(after.path == before.path);
}

proof fn lemma_insert_nothing_new(
    images: Seq<ImageRecord>,
    sorted: Seq<CandidateView>,
    base: int,
    next_id: int,
    now: Seq<char>,
)
    requires
        forall|k: int| 0 <= k < sorted.len() ==> path_set(images).contains(#[trigger] sorted[k].path),
    ensures
        insert_or_ignore(images, sorted, base, next_id, now) == images,
    decreases sorted.len(),
{
    if sorted.len() > 0 {
        let d = sorted.drop_last();
        assert forall|k: int| 0 <= k < d.len() implies path_set(images).contains(#[trigger] d[k].path) by {
            assert(d[k] == sorted[k]);
        }
        lemma_insert_nothing_new(images, d, base, next_id, now);
        assert(path_set(images).contains(sorted[sorted.len() - 1].path));
    }
}

/// The counts of a project add up to its number of pictures.
pub proof fn law_counts_add_up(c: StatusCounts, images: Seq<ImageRecord>)
    requires
        counts_match(c, images),
    ensures
        c.spec_total() == images.len(),
{
    lemma_counts_sum(images);
    assert(c.count_of(ImageStatus::Unseen) == count_status(images, ImageStatus::Unseen));
    assert(c.count_of(ImageStatus::Undecided) == count_status(images, ImageStatus::Undecided));
    assert(c.count_of(ImageStatus::Selected) == count_status(images, ImageStatus::Selected));
    assert(c.count_of(ImageStatus::Rejected) == count_status(images, ImageStatus::Rejected));
}

/// The picture a queue shows next belongs to the queue and has the lowest
/// position of all pictures in the queue.
pub proof fn law_queue_shows_lowest_position(
    images: Seq<ImageRecord>,
    status: ImageStatus,
    after: Option<int>,
    x: ImageRecord,
)
    requires
        positions_ordered(images),
        queue_answer(images, status, after, Some(x)),
    ensures
        in_queue(x, status, after),
        forall|i: int| 0 <= i < images.len() && in_queue(images[i], status, after) ==> x.position <= images[i].position,
{
    let k = choose|k: int| first_in_queue(images, status, after, k) && images[k] == x;
    assert forall|i: int| 0 <= i < images.len() && in_queue(images[i], status, after) implies x.position <= images[i].position by {
        if i < k {
        } else if i > k {
            assert(images[k].position <= images[i].position);
        }
    }
}

/// Recording a decision is read back: every picture with the id carries
/// the new status, the other pictures are unchanged, and no picture changes
/// its id, path or position.
pub proof fn law_status_write_reads_back(images: Seq<ImageRecord>, id: int, s: ImageStatus, now: Seq<char>)
    ensures
        ({
            let r = update_id(images, id, status_change(s, now));
            &&& r.len() == images.len()
            &&& forall|i: int|
                0 <= i < r.len() ==> {
                    &&& (#[trigger] r[i]).status == if images[i].id == id { s } else { images[i].status }
                    &&& r[i].id == images[i].id
                    &&& r[i].path == images[i].path
                    &&& r[i].position == images[i].position
                    &&& images[i].id != id ==> r[i] == images[i]
                }
        }),
{
}

/// Undoing a decision restores the picture: recording a status and then the
/// status the picture had before gives back the project as it was, up to
/// the time of the last change.
pub proof fn law_undo_restores(
    images: Seq<ImageRecord>,
    id: int,
    s: ImageStatus,
    previous: ImageStatus,
    t1: Seq<char>,
    t2: Seq<char>,
)
    requires
        forall|i: int| 0 <= i < images.len() && images[i].id == id ==> images[i].status == previous,
    ensures
        ({
            let r = update_id(update_id(images, id, status_change(s, t1)), id, status_change(previous, t2));
            &&& r.len() == images.len()
            &&& forall|i: int|
                0 <= i < r.len() ==> #[trigger] r[i] == if images[i].id == id {
                    ImageRecord { updated_at: t2, ..images[i] }
                } else {
                    images[i]
                }
        }),
{
}

/// An export copies exactly the selected pictures, in position order.
pub proof fn law_export_takes_selected(images: Seq<ImageRecord>)
    ensures
        forall|k: int| 0 <= k < selected_of(images).len() ==> (#[trigger] selected_of(images)[k]).status
            == ImageStatus::Selected,
        forall|i: int|
            0 <= i < images.len() && images[i].status == ImageStatus::Selected ==> exists|k: int|
                0 <= k < selected_of(images).len() && #[trigger] selected_of(images)[k] == images[i],
        selected_of(images).len() <= images.len(),
    decreases images.len(),
{
    if images.len() > 0 {
        let d = images.drop_last();
        law_export_takes_selected(d);
        let sd = selected_of(d);
        assert forall|i: int|
            0 <= i < images.len() && images[i].status == ImageStatus::Selected implies exists|k: int|
                0 <= k < selected_of(images).len() && #[trigger] selected_of(images)[k] == images[i] by {
            if i < images.len() - 1 {
                assert(d[i] == images[i]);
                let k = choose|k: int| 0 <= k < sd.len() && sd[k] == d[i];
                assert(selected_of(images)[k] == images[i]);
            } else {
                assert(selected_of(images)[sd.len() as int] == images[i]);
            }
        }
    }
}

/// The value of a run of decimal digits.
pub open spec fn digits_value(s: Seq<char>) -> int
    decreases s.len(),
{
    if s.len() == 0 {
        0
    } else {
        digits_value(s.drop_last()) * 10 + (s.last() as int - 48)
    }
}

/// Every character is a decimal digit.
pub open spec fn all_digits(s: Seq<char>) -> bool {
    forall|i: int| 0 <= i < s.len() ==> '0' <= #[trigger] s[i] <= '9'
}

proof fn lemma_decimal_digits(n: nat)
    ensures
        all_digits(decimal(n)),
        digits_value(decimal(n)) == n,
    decreases n,
{
    reveal_with_fuel(decimal, 2);
    if n >= 10 {
        lemma_decimal_digits(n / 10);
        let d = decimal(n / 10);
        assert(decimal(n) == d.push(digit_char(n % 10)));
        assert(decimal(n).drop_last() =~= d);
        assert(decimal(n).last() == digit_char(n % 10));
        assert((digit_char(n % 10) as int) == 48 + n % 10);
        assert(n == (n / 10) * 10 + n % 10);
        assert(digits_value(decimal(n)) == digits_value(decimal(n).drop_last()) * 10 + (decimal(n).last() as int - 48));
        assert forall|i: int| 0 <= i < decimal(n).len() implies '0' <= #[trigger] decimal(n)[i] <= '9' by {
            if i < d.len() {
                assert(decimal(n)[i] == d[i]);
            }
        }
    } else {
        assert(decimal(n) == seq![digit_char(n)]);
        assert(decimal(n).drop_last() =~= Seq::<char>::empty());
        assert((digit_char(n) as int) == 48 + n);
        assert(digits_value(Seq::<char>::empty()) == 0);
        assert(digits_value(decimal(n)) == digits_value(decimal(n).drop_last()) * 10 + (decimal(n).last() as int - 48));
    }
}

proof fn lemma_leading_zeros(k: nat, d: Seq<char>)
    ensures
        digits_value(Seq::new(k, |_i: int| '0') + d) == digits_value(d) + digits_value(
            Seq::new(k, |_i: int| '0'),
        ) * pow10(d.len()),
        digits_value(Seq::new(k, |_i: int| '0')) == 0,
    decreases d.len(), k,
{
    let z = Seq::new(k, |_i: int| '0');
    if k > 0 {
        lemma_leading_zeros((k - 1) as nat, Seq::<char>::empty());
        assert(z.drop_last() =~= Seq::new((k - 1) as nat, |_i: int| '0'));
    }
    if d.len() > 0 {
        lemma_leading_zeros(k, d.drop_last());
        assert((z + d).drop_last() =~= z + d.drop_last());
    } else {
        assert(z + d =~= z);
    }
}

/// Ten to the power `n`.
pub open spec fn pow10(n: nat) -> int
    decreases n,
{
    if n == 0 {
        1
    } else {
        10 * pow10((n - 1) as nat)
    }
}

proof fn lemma_zero_padded_digits(n: nat, width: nat)
    ensures
        all_digits(zero_padded(n, width)),
        digits_value(zero_padded(n, width)) == n,
{
    lemma_decimal_digits(n);
    let d = decimal(n);
    if d.len() < width {
        lemma_leading_zeros((width - d.len()) as nat, d);
    }
}

/// Different positions in an export give different file names, whatever the
/// pictures are called: the names of an export never collide.
pub proof fn law_export_names_distinct(i: nat, j: nat, p: Seq<char>, q: Seq<char>)
    requires
        i != j,
        export_name(i, p) is Some,
        export_name(j, q) is Some,
    ensures
        export_name(i, p) != export_name(j, q),
{
    let a = zero_padded(i, 6);
    let b = zero_padded(j, 6);
    lemma_zero_padded_digits(i, 6);
    lemma_zero_padded_digits(j, 6);
    let x = export_name(i, p).unwrap();
    let y = export_name(j, q).unwrap();
    if x == y {
        if a.len() == b.len() {
            assert(a =~= x.subrange(0, a.len() as int));
            assert(b =~= y.subrange(0, b.len() as int));
        } else if a.len() < b.len() {
            assert(x[a.len() as int] == '_');
            assert(y[a.len() as int] == b[a.len() as int]);
        } else {
            assert(y[b.len() as int] == '_');
            assert(x[b.len() as int] == a[b.len() as int]);
        }
    }
}

/// No two pictures of a table share a path.
pub open spec fn paths_distinct(images: Seq<ImageRecord>) -> bool {
    forall|i: int, j: int| 0 <= i < j < images.len() ==> images[i].path != images[j].path
}

/// Positions rise strictly along a table and start at 1 or above.
pub open spec fn positions_rising(images: Seq<ImageRecord>) -> bool {
    &&& forall|i: int, j: int| 0 <= i < j < images.len() ==> images[i].position < images[j].position
    &&& forall|i: int| 0 <= i < images.len() ==> images[i].position >= 1
}

proof fn lemma_max_position_bounds(images: Seq<ImageRecord>)
    ensures
        forall|i: int| 0 <= i < images.len() ==> images[i].position <= max_position(images),
    decreases images.len(),
{
    if images.len() > 1 {
        let d = images.drop_last();
        lemma_max_position_bounds(d);
        assert forall|i: int| 0 <= i < images.len() implies images[i].position <= max_position(images) by {
            if i < images.len() - 1 {
                assert(d[i] == images[i]);
            }
        }
    }
}

/// What `insert_or_ignore` adds: at most one row per new picture, each with
/// the path of one of them and a path not yet in the table it grows.
proof fn lemma_insert_paths(
    images: Seq<ImageRecord>,
    sorted: Seq<CandidateView>,
    base: int,
    next_id: int,
    now: Seq<char>,
)
    ensures
        ({
            let r = insert_or_ignore(images, sorted, base, next_id, now);
            &&& r.len() <= images.len() + sorted.len()
            &&& forall|k: int|
                images.len() <= k < r.len() ==> exists|j: int|
                    0 <= j < sorted.len() && (#[trigger] r[k]).path == sorted[j].path
            &&& paths_distinct(images) ==> paths_distinct(r)
        }),
    decreases sorted.len(),
{
    law_import_keeps_existing_rows(images, sorted, base, next_id, now);
    if sorted.len() > 0 {
        let d = sorted.drop_last();
        lemma_insert_paths(images, d, base, next_id, now);
        let prev = insert_or_ignore(images, d, base, next_id, now);
        let r = insert_or_ignore(images, sorted, base, next_id, now);
        let c = sorted.last();
        law_import_keeps_existing_rows(images, d, base, next_id, now);
        assert forall|k: int| images.len() <= k < r.len() implies exists|j: int|
            0 <= j < sorted.len() && (#[trigger] r[k]).path == sorted[j].path by {
            if k < prev.len() {
                assert(r[k] == prev[k]);
                let j = choose|j: int| 0 <= j < d.len() && prev[k].path == d[j].path;
                assert(d[j] == sorted[j]);
            } else {
                assert(r[k].path == sorted[sorted.len() - 1].path);
            }
        }
        if paths_distinct(images) && !path_set(prev).contains(c.path) {
            assert forall|i: int, j: int| 0 <= i < j < r.len() implies r[i].path != r[j].path by {
                if j == r.len() - 1 {
                    assert(r[i] == prev[i]);
                    if r[i].path == c.path {
                        assert(path_set(prev).contains(c.path));
                    }
                } else {
                    assert(r[i] == prev[i] && r[j] == prev[j]);
                }
            }
        }
    }
}

/// An import adds only supported pictures: every row it adds has the path
/// of one of the scan's new pictures, and a scan takes in only supported
/// pictures.
pub proof fn law_import_adds_only_supported_pictures(
    before: ProjectView,
    after: ProjectView,
    scan: ImportScan,
    sorted: Seq<CandidateView>,
    now: Seq<char>,
    r: Result<ImportSummary, crate::error::Error>,
)
    requires
        scan.settled(),
        import_ordered(candidate_views(scan.candidates@), sorted),
        import_outcome(before, after, scan.summary, sorted, now, r),
    ensures
        forall|k: int|
            before.images.len() <= k < after.images.len() ==> supported_image(
                (#[trigger] after.images[k]).path,
            ),
{
    lemma_insert_paths(before.images, sorted, max_position(before.images), before.next_id, now);
    let c = candidate_views(scan.candidates@);
    let idx = choose|idx: Seq<int>|
        {
            &&& is_index_permutation(idx, c.len() as int)
            &&& sorted.len() == c.len()
            &&& forall|k: int| 0 <= k < sorted.len() ==> sorted[k] == c[#[trigger] idx[k]]
            &&& forall|a: int, b: int|
                0 <= a < b < sorted.len() ==> comes_before(c, idx[a], idx[b])
        };
    assert forall|k: int| before.images.len() <= k < after.images.len() implies supported_image(
        (#[trigger] after.images[k]).path,
    ) by {
        let j = choose|j: int| 0 <= j < sorted.len() && after.images[k].path == sorted[j].path;
        assert(sorted[j] == c[idx[j]]);
        assert(c[idx[j]] == scan.candidates@[idx[j]]@);
        assert(supported_image(scan.candidates@[idx[j]].path@));
    }
}

/// An import counts every file it scanned exactly once: as imported, as a
/// duplicate, or as unsupported.
pub proof fn law_import_counts_every_file(
    before: ProjectView,
    after: ProjectView,
    scan: ImportScan,
    sorted: Seq<CandidateView>,
    now: Seq<char>,
    s: ImportSummary,
)
    requires
        scan.settled(),
        import_ordered(candidate_views(scan.candidates@), sorted),
        import_outcome(before, after, scan.summary, sorted, now, Ok(s)),
    ensures
        s.scanned == s.imported + s.duplicates + s.unsupported,
        after.images.len() == before.images.len() + s.imported,
{
    lemma_insert_paths(before.images, sorted, max_position(before.images), before.next_id, now);
    law_import_keeps_existing_rows(before.images, sorted, max_position(before.images), before.next_id, now);
    assert(sorted.len() == scan.candidates@.len());
}

/// An import keeps paths unique and positions rising: when no two pictures
/// share a path and positions rise from 1 before, the same holds after,
/// whether the import succeeds or is refused.
pub proof fn law_import_keeps_paths_and_positions_distinct(
    before: ProjectView,
    after: ProjectView,
    summary: ImportSummary,
    sorted: Seq<CandidateView>,
    now: Seq<char>,
    r: Result<ImportSummary, crate::error::Error>,
)
    requires
        paths_distinct(before.images),
        positions_rising(before.images),
        import_outcome(before, after, summary, sorted, now, r),
    ensures
        paths_distinct(after.images),
        positions_rising(after.images),
{
    if r is Ok {
        let base = max_position(before.images);
        let n = before.images.len();
        lemma_insert_paths(before.images, sorted, base, before.next_id, now);
        law_import_keeps_existing_rows(before.images, sorted, base, before.next_id, now);
        lemma_max_position_bounds(before.images);
        let a = after.images;
        assert forall|i: int| 0 <= i < n implies a[i] == before.images[i] by {
            assert(a.subrange(0, n as int)[i] == a[i]);
        }
        if n > 0 {
            assert(base >= before.images[0].position);
        }
        assert forall|i: int, j: int| 0 <= i < j < a.len() implies a[i].position < a[j].position by {
            if j < n {
                assert(a[i] == before.images[i] && a[j] == before.images[j]);
            } else if i < n {
                assert(a[i] == before.images[i]);
            }
        }
        assert forall|i: int| 0 <= i < a.len() implies a[i].position >= 1 by {
            if i < n {
                assert(a[i] == before.images[i]);
            }
        }
    }
}

/// Which files an import takes as pictures: exactly those whose extension,
/// lower-cased, is `jpg`, `jpeg` or `png`. Every other extension (`mp4`,
/// `heic`, `txt`, ...) and a file without extension is left out.
pub proof fn law_supported_pictures_are_jpeg_and_png(p: Seq<char>)
    ensures
        supported_image(p) <==> (extension(p) matches Some(e) && (ascii_lower_all(e) == "jpg"@
            || ascii_lower_all(e) == "jpeg"@ || ascii_lower_all(e) == "png"@)),
        extension(p) matches Some(e) && ascii_lower_all(e) == "mp4"@ ==> !supported_image(p),
        extension(p) is None ==> !supported_image(p),
{
    reveal_strlit("jpg");
    reveal_strlit("jpeg");
    reveal_strlit("png");
    reveal_strlit("mp4");
    if let Some(e) = extension(p) {
        assert("jpg"@ =~= seq!['j', 'p', 'g']);
        assert("jpeg"@ =~= seq!['j', 'p', 'e', 'g']);
        assert("png"@ =~= seq!['p', 'n', 'g']);
        if ascii_lower_all(e) == "mp4"@ {
            assert(ascii_lower_all(e)[0] == 'm');
        }
    }
}

/// The manifest lists the export in the order of its header: a header line
/// `exported_filename, original_path, status, position`, then one line per
/// copied picture with the name it was copied under, its original path, its
/// status word and its position, in that order.
pub proof fn law_manifest_columns_follow_the_header(rows: Seq<ManifestRow>)
    ensures
        manifest_lines(rows).len() == rows.len() + 1,
        manifest_lines(rows)[0] == seq!["exported_filename"@, "original_path"@, "status"@, "position"@],
        forall|k: int|
            0 <= k < rows.len() ==> {
                let line = #[trigger] manifest_lines(rows)[k + 1];
                &&& line.len() == 4
                &&& line[0] == rows[k].exported_filename@
                &&& line[1] == rows[k].original_path@
                &&& line[2] == rows[k].status@
                &&& line[3] == signed_decimal(rows[k].position as int)
            },
{
    reveal_strlit("exported_filename");
    reveal_strlit("original_path");
    reveal_strlit("status");
    reveal_strlit("position");
    let h = crate::export::manifest_header();
    assert(h[0] =~= "exported_filename"@);
    assert(h[1] =~= "original_path"@);
    assert(h[2] =~= "status"@);
    assert(h[3] =~= "position"@);
    assert(manifest_lines(rows)[0] == h);
    assert(h =~= seq!["exported_filename"@, "original_path"@, "status"@, "position"@]);
}

/// The three answers of the chooser record three different decisions: only
/// Ja selects a picture, only Nein rejects it, only Später puts it off, and
/// no answer leaves it unseen.
pub proof fn law_choices_record_distinct_statuses(a: ChoiceAction, b: ChoiceAction)
    ensures
        a != b ==> status_for(a) != status_for(b),
        status_for(a) != ImageStatus::Unseen,
        (status_for(a) == ImageStatus::Selected) <==> (a == ChoiceAction::Select),
        (status_for(a) == ImageStatus::Rejected) <==> (a == ChoiceAction::Reject),
        (status_for(a) == ImageStatus::Undecided) <==> (a == ChoiceAction::Later),
{
}

/// Every picture an export takes is a picture of the table.
proof fn lemma_selected_of_rows(images: Seq<ImageRecord>)
    ensures
        forall|k: int|
            0 <= k < selected_of(images).len() ==> exists|i: int|
                0 <= i < images.len() && images[i] == #[trigger] selected_of(images)[k],
    decreases images.len(),
{
    if images.len() > 0 {
        let d = images.drop_last();
        lemma_selected_of_rows(d);
        let sd = selected_of(d);
        assert forall|k: int| 0 <= k < selected_of(images).len() implies exists|i: int|
            0 <= i < images.len() && images[i] == #[trigger] selected_of(images)[k] by {
            if k < sd.len() {
                assert(selected_of(images)[k] == sd[k]);
                let i = choose|i: int| 0 <= i < d.len() && d[i] == sd[k];
                assert(images[i] == d[i]);
            } else {
                assert(images[images.len() - 1] == selected_of(images)[k]);
            }
        }
    }
}

/// Answering Nein keeps a picture out of every later export, and answering
/// Ja puts it in, whatever the table holds.
pub proof fn law_rejected_pictures_are_not_exported(images: Seq<ImageRecord>, id: int, now: Seq<char>)
    ensures
        forall|k: int|
            0 <= k < selected_of(update_id(images, id, status_change(status_for(ChoiceAction::Reject), now))).len()
                ==> (#[trigger] selected_of(update_id(images, id, status_change(status_for(ChoiceAction::Reject), now)))[k]).id
                != id,
        forall|i: int|
            0 <= i < images.len() && images[i].id == id ==> exists|k: int|
                0 <= k < selected_of(update_id(images, id, status_change(status_for(ChoiceAction::Select), now))).len()
                    && (#[trigger] selected_of(update_id(images, id, status_change(status_for(ChoiceAction::Select), now)))[k]).id == id,
{
    let rej = update_id(images, id, status_change(status_for(ChoiceAction::Reject), now));
    let sel = update_id(images, id, status_change(status_for(ChoiceAction::Select), now));
    law_export_takes_selected(rej);
    lemma_selected_of_rows(rej);
    assert forall|k: int| 0 <= k < selected_of(rej).len() implies (#[trigger] selected_of(rej)[k]).id != id by {
        let i = choose|i: int| 0 <= i < rej.len() && rej[i] == selected_of(rej)[k];
        assert(selected_of(rej)[k].status == ImageStatus::Selected);
        if rej[i].id == id {
            assert(rej[i].status == ImageStatus::Rejected);
        }
    }
    law_export_takes_selected(sel);
    assert forall|i: int| 0 <= i < images.len() && images[i].id == id implies exists|k: int|
        0 <= k < selected_of(sel).len() && (#[trigger] selected_of(sel)[k]).id == id by {
        assert(sel[i].status == ImageStatus::Selected);
        let k = choose|k: int| 0 <= k < selected_of(sel).len() && #[trigger] selected_of(sel)[k] == sel[i];
        assert(selected_of(sel)[k].id == id);
    }
}

/// `gui`, `init` and `stats` take the project file as their one optional
/// argument: given, it is the project the command works on; left out, the
/// default project is used. `import` and `export` take the folder last and
/// an optional project before it.
pub proof fn law_commands_take_the_given_project(p: Seq<char>, f: Seq<char>)
    ensures
        parse_spec(seq!["gui"@]) == Ok::<CommandView, Seq<char>>(CommandView::Gui { project: None }),
        parse_spec(seq!["gui"@, p]) == Ok::<CommandView, Seq<char>>(CommandView::Gui { project: Some(p) }),
        parse_spec(seq!["init"@]) == Ok::<CommandView, Seq<char>>(CommandView::Init { project: None }),
        parse_spec(seq!["init"@, p]) == Ok::<CommandView, Seq<char>>(CommandView::Init { project: Some(p) }),
        parse_spec(seq!["stats"@]) == Ok::<CommandView, Seq<char>>(CommandView::Stats { project: None }),
        parse_spec(seq!["stats"@, p]) == Ok::<CommandView, Seq<char>>(CommandView::Stats { project: Some(p) }),
        parse_spec(seq!["import"@, f]) == Ok::<CommandView, Seq<char>>(
            CommandView::Import { project: None, folder: f },
        ),
        parse_spec(seq!["import"@, p, f]) == Ok::<CommandView, Seq<char>>(
            CommandView::Import { project: Some(p), folder: f },
        ),
        parse_spec(seq!["export"@, f]) == Ok::<CommandView, Seq<char>>(
            CommandView::Export { project: None, target_folder: f },
        ),
        parse_spec(seq!["export"@, p, f]) == Ok::<CommandView, Seq<char>>(
            CommandView::Export { project: Some(p), target_folder: f },
        ),
{
    reveal_strlit("gui");
    reveal_strlit("init");
    reveal_strlit("stats");
    reveal_strlit("import");
    reveal_strlit("export");
    assert("init"@ != "gui"@) by {
        assert("init"@.len() != "gui"@.len());
    }
    assert("stats"@ != "gui"@ && "stats"@ != "init"@ && "stats"@ != "import"@ && "stats"@ != "export"@) by {
        assert("stats"@[0] != "gui"@[0] && "stats"@[0] != "init"@[0] && "stats"@[0] != "import"@[0]
            && "stats"@[0] != "export"@[0]);
    }
    assert("import"@ != "gui"@ && "import"@ != "init"@) by {
        assert("import"@.len() != "gui"@.len() && "import"@[1] != "init"@[1]);
    }
    assert("export"@ != "gui"@ && "export"@ != "init"@ && "export"@ != "import"@) by {
        assert("export"@[0] != "gui"@[0] && "export"@[0] != "init"@[0] && "export"@[0] != "import"@[0]);
    }
}

/// The status block shows each count on the line that names it: `gesamt`
/// the total, `ungesehen` the unseen, `später` the postponed, `ausgewählt`
/// the selected and `abgelehnt` the rejected pictures.
pub proof fn law_status_lines_name_their_counts(c: StatusCounts)
    ensures
        status_lines_spec(c).len() == 6,
        status_lines_spec(c)[0] == "Status:"@,
        status_lines_spec(c)[1] == "  gesamt: "@ + signed_decimal(
            c.unseen + c.undecided + c.selected + c.rejected,
        ),
        status_lines_spec(c)[2] == "  ungesehen: "@ + signed_decimal(c.unseen as int),
        status_lines_spec(c)[3] == "  später: "@ + signed_decimal(c.undecided as int),
        status_lines_spec(c)[4] == "  ausgewählt: "@ + signed_decimal(c.selected as int),
        status_lines_spec(c)[5] == "  abgelehnt: "@ + signed_decimal(c.rejected as int),
{
}

} // verus!
