//! The image table of a project and the queries the chooser asks of it.
//!
//! A `Project` holds every picture of a project file in position order. The
//! queues of the chooser (new pictures, pictures put off for later) are
//! answered from this table, and decisions are recorded in it.

use vstd::prelude::*;
use vstd::hash_set::StringHashSet;
use crate::clock::{clock_message, clock_text, utc_now};
use crate::error::Error;
use crate::image::{ImageChoice, ImageRecord, opt_view};
use crate::status::{ImageStatus, StatusCounts};
use crate::import::{
    candidate_views, import_ordered, insert_or_ignore, max_position, new_record, sort_candidates,
    CandidateView, ImportScan, ImportSummary, NewImage,
};

verus! {

/// The content of a project: its file path, its pictures in position order,
/// and the id the next imported picture receives.
pub struct ProjectView {
    pub path: Seq<char>,
    pub images: Seq<ImageRecord>,
    pub next_id: int,
}

/// The pictures of a project, in position order, with the bookkeeping the
/// import needs.
pub struct Project {
    db_path: String,
    images: Vec<ImageChoice>,
    paths: StringHashSet,
    next_id: i128,
}

/// The views of a vector of pictures.
pub open spec fn records(v: Seq<ImageChoice>) -> Seq<ImageRecord> {
    v.map_values(|c: ImageChoice| c@)
}

/// The paths that occur in a table.
pub open spec fn path_set(images: Seq<ImageRecord>) -> Set<Seq<char>> {
    Set::new(|p: Seq<char>| exists|i: int| 0 <= i < images.len() && images[i].path == p)
}

/// The invariant of a table: positions never decrease along the table, every
/// id is below the next id to hand out, ids fit in `i64`, and the number of
/// pictures fits in `i64`.
pub open spec fn table_wf(images: Seq<ImageRecord>, next_id: int) -> bool {
    &&& forall|i: int, j: int|
        0 <= i < j < images.len() ==> images[i].position <= images[j].position
    &&& forall|i: int| 0 <= i < images.len() ==> images[i].id < next_id
    &&& 1 <= next_id <= i64::MAX + 1
    &&& images.len() <= i64::MAX
}

/// Number of pictures with a status.
pub open spec fn count_status(images: Seq<ImageRecord>, s: ImageStatus) -> int
    decreases images.len(),
{
    if images.len() == 0 {
        0
    } else {
        count_status(images.drop_last(), s) + if images.last().status == s {
            1int
        } else {
            0int
        }
    }
}

/// The counts of a table, one per status.
pub open spec fn counts_match(c: StatusCounts, images: Seq<ImageRecord>) -> bool {
    forall|s: ImageStatus| c.count_of(s) == count_status(images, s)
}

/// Whether a picture belongs to a queue: the pictures with `status`,
/// restricted to positions above `after` when a bound is given.
pub open spec fn in_queue(r: ImageRecord, status: ImageStatus, after: Option<int>) -> bool {
    &&& r.status == status
    &&& match after {
        Some(a) => r.position > a,
        None => true,
    }
}

/// `i` is the first picture of the table, in position order, that belongs
/// to the queue.
pub open spec fn first_in_queue(
    images: Seq<ImageRecord>,
    status: ImageStatus,
    after: Option<int>,
    i: int,
) -> bool {
    &&& 0 <= i < images.len()
    &&& in_queue(images[i], status, after)
    &&& forall|j: int| 0 <= j < i ==> !in_queue(images[j], status, after)
}

/// The answer of a queue query: the first queued picture, or nothing when the
/// queue is empty.
pub open spec fn queue_answer(
    images: Seq<ImageRecord>,
    status: ImageStatus,
    after: Option<int>,
    r: Option<ImageRecord>,
) -> bool {
    match r {
        Some(x) => exists|i: int| first_in_queue(images, status, after, i) && images[i] == x,
        None => forall|i: int| 0 <= i < images.len() ==> !in_queue(images[i], status, after),
    }
}

/// The view of an optional picture.
pub open spec fn opt_record(o: Option<ImageChoice>) -> Option<ImageRecord> {
    match o {
        Some(c) => Some(c@),
        None => None,
    }
}

/// The table after `f` has been applied to every picture with id `id`.
pub open spec fn update_id(
    images: Seq<ImageRecord>,
    id: int,
    f: spec_fn(ImageRecord) -> ImageRecord,
) -> Seq<ImageRecord> {
    images.map_values(|r: ImageRecord| if r.id == id { f(r) } else { r })
}

/// The change `set_status` makes to one picture.
pub open spec fn status_change(status: ImageStatus, now: Seq<char>) -> spec_fn(ImageRecord) -> ImageRecord {
    |r: ImageRecord| ImageRecord { status: status, updated_at: now, ..r }
}

/// The change `store_last_error` and `clear_last_error` make to one picture.
pub open spec fn error_change(err: Option<Seq<char>>, now: Seq<char>) -> spec_fn(ImageRecord) -> ImageRecord {
    |r: ImageRecord| ImageRecord { last_error: err, updated_at: now, ..r }
}

/// The change `apply_change` makes to a picture: a new status, or else a
/// new stored error.
pub open spec fn change_of(
    status: Option<ImageStatus>,
    error: Option<Option<String>>,
    now: Seq<char>,
) -> spec_fn(ImageRecord) -> ImageRecord {
    match status {
        Some(st) => status_change(st, now),
        None => error_change(
            match error {
                Some(e) => opt_view(e),
                None => None,
            },
            now,
        ),
    }
}

impl View for Project {
    type V = ProjectView;

    closed spec fn view(&self) -> ProjectView {
        ProjectView { path: self.db_path@, images: records(self.images@), next_id: self.next_id as int }
    }
}

/// The number of pictures with a status never exceeds the number of pictures.
pub proof fn lemma_count_bounds(images: Seq<ImageRecord>, s: ImageStatus)
    ensures
        0 <= count_status(images, s) <= images.len(),
    decreases images.len(),
{
    if images.len() > 0 {
        lemma_count_bounds(images.drop_last(), s);
    }
}

/// Every picture carries exactly one status, so the four counts add up to the
/// number of pictures.
pub proof fn lemma_counts_sum(images: Seq<ImageRecord>)
    ensures
        count_status(images, ImageStatus::Unseen) + count_status(images, ImageStatus::Undecided)
            + count_status(images, ImageStatus::Selected) + count_status(
            images,
            ImageStatus::Rejected,
        ) == images.len(),
    decreases images.len(),
{
    if images.len() > 0 {
        lemma_counts_sum(images.drop_last());
    }
}

impl Project {
    /// The invariant of a project (see `table_wf`), together with the index of
    /// its paths.
    pub closed spec fn wf(&self) -> bool {
        &&& table_wf(self@.images, self@.next_id)
        &&& self.paths@ == path_set(self@.images)
    }

    /// What the invariant of a project promises: positions never decrease
    /// along the table, ids stay below the next id, and the number of
    /// pictures fits in `i64`.
    pub proof fn lemma_wf(&self)
        requires
            self.wf(),
        ensures
            table_wf(self@.images, self@.next_id),
            positions_ordered(self@.images),
    {
    }

    /// An empty project stored at `db_path`.
    pub fn new(db_path: String) -> (r: Project)
        ensures
            r.wf(),
            r@.path == db_path@,
            r@.images == Seq::<ImageRecord>::empty(),
            r@.next_id == 1,
    {
        let r = Project { db_path, images: Vec::new(), paths: StringHashSet::new(), next_id: 1 };
        assert(r@.images =~= Seq::<ImageRecord>::empty());
        assert(r.paths@ =~= path_set(r@.images));
        r
    }

    /// The project file this table belongs to.
    pub fn path(&self) -> (r: &str)
        ensures
            r@ == self@.path,
    {
        self.db_path.as_str()
    }

    /// The number of pictures.
    pub fn image_count(&self) -> (r: Result<i64, Error>)
        requires
            self.wf(),
        ensures
            r == Ok::<i64, Error>(self@.images.len() as i64),
    {
        Ok(self.images.len() as i64)
    }

    /// How many pictures carry each status.
    pub fn status_counts(&self) -> (r: Result<StatusCounts, Error>)
        requires
            self.wf(),
        ensures
            r matches Ok(c) && counts_match(c, self@.images) && c.spec_total() == self@.images.len(),
    {
        let mut c = StatusCounts { unseen: 0, undecided: 0, selected: 0, rejected: 0 };
        let mut i: usize = 0;
        let ghost all = self@.images;
        while i < self.images.len()
            invariant
                all == records(self.images@),
                all.len() <= i64::MAX,
                i <= all.len(),
                counts_match(c, all.subrange(0, i as int)),
            decreases self.images.len() - i,
        {
            let ghost pre = all.subrange(0, i as int);
            proof {
                assert(all.subrange(0, i + 1).drop_last() == pre);
                assert(all.subrange(0, i + 1).last() == self.images@[i as int]@);
                lemma_count_bounds(pre, ImageStatus::Unseen);
                lemma_count_bounds(pre, ImageStatus::Undecided);
                lemma_count_bounds(pre, ImageStatus::Selected);
                lemma_count_bounds(pre, ImageStatus::Rejected);
                assert(c.count_of(ImageStatus::Unseen) == count_status(pre, ImageStatus::Unseen));
                assert(c.count_of(ImageStatus::Undecided) == count_status(pre, ImageStatus::Undecided));
                assert(c.count_of(ImageStatus::Selected) == count_status(pre, ImageStatus::Selected));
                assert(c.count_of(ImageStatus::Rejected) == count_status(pre, ImageStatus::Rejected));
            }
            match self.images[i].status {
                ImageStatus::Unseen => c.unseen = c.unseen + 1,
                ImageStatus::Undecided => c.undecided = c.undecided + 1,
                ImageStatus::Selected => c.selected = c.selected + 1,
                ImageStatus::Rejected => c.rejected = c.rejected + 1,
            }
            i = i + 1;
            proof {
                let cur = all.subrange(0, i as int);
                assert forall|s: ImageStatus| c.count_of(s) == count_status(cur, s) by {
                    assert(cur.drop_last() == pre);
                }
            }
        }
        assert(all.subrange(0, all.len() as int) == all);
        proof {
            lemma_counts_sum(all);
            assert(c.count_of(ImageStatus::Unseen) == count_status(all, ImageStatus::Unseen));
            assert(c.count_of(ImageStatus::Undecided) == count_status(all, ImageStatus::Undecided));
            assert(c.count_of(ImageStatus::Selected) == count_status(all, ImageStatus::Selected));
            assert(c.count_of(ImageStatus::Rejected) == count_status(all, ImageStatus::Rejected));
        }
        Ok(c)
    }

    /// All pictures in position order.
    pub fn images_by_position(&self) -> (r: Result<Vec<ImageChoice>, Error>)
        requires
            self.wf(),
        ensures
            r matches Ok(v) && records(v@) == self@.images && positions_ordered(records(v@))
                && v@.len() <= i64::MAX,
    {
        let mut out: Vec<ImageChoice> = Vec::new();
        let mut i: usize = 0;
        while i < self.images.len()
            invariant
                i <= self.images@.len(),
                records(out@) == records(self.images@).subrange(0, i as int),
            decreases self.images.len() - i,
        {
            let c = self.images[i].clone();
            let ghost before = out@;
            out.push(c);
            assert(out@ == before.push(c));
            assert(records(out@) =~= records(before).push(c@));
            i = i + 1;
            assert(records(out@) =~= records(self.images@).subrange(0, i as int));
        }
        assert(records(self.images@).subrange(0, self.images@.len() as int) =~= records(
            self.images@,
        ));
        Ok(out)
    }

    /// The picture with the given id, if there is one.
    pub fn image_by_id(&self, id: i64) -> (r: Result<Option<ImageChoice>, Error>)
        requires
            self.wf(),
        ensures
            r matches Ok(o) && match o {
                Some(c) => exists|i: int|
                    0 <= i < self@.images.len() && self@.images[i] == c@ && c.id == id && forall|
                        j: int,
                    | 0 <= j < i ==> self@.images[j].id != id,
                None => forall|i: int| 0 <= i < self@.images.len() ==> self@.images[i].id != id,
            },
    {
        let mut i: usize = 0;
        while i < self.images.len()
            invariant
                i <= self.images@.len(),
                forall|j: int| 0 <= j < i ==> self@.images[j].id != id,
            decreases self.images.len() - i,
        {
            if self.images[i].id == id {
                let c = self.images[i].clone();
                assert(self@.images[i as int] == c@);
                return Ok(Some(c));
            }
            i = i + 1;
        }
        Ok(None)
    }

    /// The first picture in position order with `status` and, when `after` is
    /// given, a position above it.
    fn first_queued(&self, status: ImageStatus, after: Option<i64>) -> (r: Option<ImageChoice>)
        requires
            self.wf(),
        ensures
            queue_answer(
                self@.images,
                status,
                match after {
                    Some(a) => Some(a as int),
                    None => None,
                },
                opt_record(r),
            ),
    {
        let ghost bound = match after {
            Some(a) => Some(a as int),
            None => None::<int>,
        };
        let mut i: usize = 0;
        while i < self.images.len()
            invariant
                i <= self.images@.len(),
                bound == match after {
                    Some(a) => Some(a as int),
                    None => None::<int>,
                },
                forall|j: int| 0 <= j < i ==> !in_queue(self@.images[j], status, bound),
            decreases self.images.len() - i,
        {
            let row = &self.images[i];
            let queued = row.status == status && match after {
                Some(a) => row.position > a,
                None => true,
            };
            if queued {
                let c = row.clone();
                assert(first_in_queue(self@.images, status, bound, i as int));
                return Some(c);
            }
            i = i + 1;
        }
        None
    }

    /// The next picture that has not been decided on yet: the unseen picture
    /// with the lowest position.
    pub fn next_unseen(&self) -> (r: Result<Option<ImageChoice>, Error>)
        requires
            self.wf(),
        ensures
            r matches Ok(o) && queue_answer(self@.images, ImageStatus::Unseen, None, opt_record(o)),
            r matches Ok(Some(x)) ==> forall|i: int|
                0 <= i < self@.images.len() && in_queue(self@.images[i], ImageStatus::Unseen, None)
                    ==> x.position <= #[trigger] self@.images[i].position,
    {
        let r = self.first_queued(ImageStatus::Unseen, None);
        proof {
            if r is Some {
                crate::laws::law_queue_shows_lowest_position(self@.images, ImageStatus::Unseen, None, r.unwrap()@);
            }
        }
        Ok(r)
    }

    /// The unseen picture with the lowest position above `after_position`
    /// (above 0 when no position is given).
    pub fn next_unseen_after(&self, after_position: Option<i64>) -> (r: Result<
        Option<ImageChoice>,
        Error,
    >)
        requires
            self.wf(),
        ensures
            r matches Ok(o) && queue_answer(
                self@.images,
                ImageStatus::Unseen,
                Some(
                    match after_position {
                        Some(a) => a as int,
                        None => 0,
                    },
                ),
                opt_record(o),
            ),
            r matches Ok(Some(x)) ==> forall|i: int|
                0 <= i < self@.images.len() && in_queue(
                    self@.images[i],
                    ImageStatus::Unseen,
                    Some(
                        match after_position {
                            Some(a) => a as int,
                            None => 0,
                        },
                    ),
                ) ==> x.position <= #[trigger] self@.images[i].position,
    {
        let after = match after_position {
            Some(a) => a,
            None => 0,
        };
        let r = self.first_queued(ImageStatus::Unseen, Some(after));
        proof {
            if r is Some {
                crate::laws::law_queue_shows_lowest_position(self@.images, ImageStatus::Unseen, Some(after as int), r.unwrap()@);
            }
        }
        Ok(r)
    }

    /// The picture put off for later with the lowest position above
    /// `after_position` (above 0 when no position is given).
    pub fn next_undecided_after(&self, after_position: Option<i64>) -> (r: Result<
        Option<ImageChoice>,
        Error,
    >)
        requires
            self.wf(),
        ensures
            r matches Ok(o) && queue_answer(
                self@.images,
                ImageStatus::Undecided,
                Some(
                    match after_position {
                        Some(a) => a as int,
                        None => 0,
                    },
                ),
                opt_record(o),
            ),
            r matches Ok(Some(x)) ==> forall|i: int|
                0 <= i < self@.images.len() && in_queue(
                    self@.images[i],
                    ImageStatus::Undecided,
                    Some(
                        match after_position {
                            Some(a) => a as int,
                            None => 0,
                        },
                    ),
                ) ==> x.position <= #[trigger] self@.images[i].position,
    {
        let after = match after_position {
            Some(a) => a,
            None => 0,
        };
        let r = self.first_queued(ImageStatus::Undecided, Some(after));
        proof {
            if r is Some {
                crate::laws::law_queue_shows_lowest_position(self@.images, ImageStatus::Undecided, Some(after as int), r.unwrap()@);
            }
        }
        Ok(r)
    }

    fn apply_change(&mut self, id: i64, status: Option<ImageStatus>, error: Option<Option<String>>, now: &str)
        requires
            old(self).wf(),
        ensures
            final(self).wf(),
            final(self)@.path == old(self)@.path,
            final(self)@.next_id == old(self)@.next_id,
            final(self)@.images == update_id(
                old(self)@.images,
                id as int,
                change_of(status, error, now@),
            ),
    {
        let ghost f = change_of(status, error, now@);
        let ghost orig = old(self)@.images;
        let mut i: usize = 0;
        while i < self.images.len()
            invariant
                orig == old(self)@.images,
                self.images@.len() == orig.len(),
                i <= orig.len(),
                self.db_path == old(self).db_path,
                self.next_id == old(self).next_id,
                self.paths == old(self).paths,
                f == change_of(status, error, now@),
                forall|k: int|
                    0 <= k < i ==> self@.images[k] == if orig[k].id == id as int {
                        f(orig[k])
                    } else {
                        orig[k]
                    },
                forall|k: int| i <= k < orig.len() ==> self@.images[k] == orig[k],
            decreases self.images.len() - i,
        {
            if self.images[i].id == id {
                let old_row = self.images[i].clone();
                let new_status = match status {
                    Some(st) => st,
                    None => old_row.status,
                };
                let new_error = match status {
                    Some(_) => crate::image::clone_opt(&old_row.last_error),
                    None => match &error {
                        Some(e) => crate::image::clone_opt(e),
                        None => None,
                    },
                };
                let row = ImageChoice {
                    id: old_row.id,
                    path: old_row.path,
                    status: new_status,
                    position: old_row.position,
                    ordering_timestamp: old_row.ordering_timestamp,
                    ordering_source: old_row.ordering_source,
                    last_error: new_error,
                    created_at: old_row.created_at,
                    updated_at: crate::text::string_of(&crate::text::chars_of(now)),
                };
                let ghost before = self.images@;
                self.images.set(i, row);
                proof {
                    assert(row@ == f(orig[i as int]));
                    assert(self.images@ == before.update(i as int, row));
                    assert(records(self.images@) =~= records(before).update(i as int, row@));
                }
            }
            proof {
                assert(self@.images[i as int] == if orig[i as int].id == id as int {
                    f(orig[i as int])
                } else {
                    orig[i as int]
                });
            }
            i = i + 1;
        }
        proof {
            assert(self@.images =~= update_id(orig, id as int, f));
            assert forall|p: Seq<char>| path_set(self@.images).contains(p) == path_set(orig).contains(p) by {
                if path_set(orig).contains(p) {
                    let k = choose|k: int| 0 <= k < orig.len() && orig[k].path == p;
                    assert(self@.images[k].path == p);
                }
                if path_set(self@.images).contains(p) {
                    let k = choose|k: int| 0 <= k < self@.images.len() && self@.images[k].path == p;
                    assert(orig[k].path == p);
                }
            }
            assert(path_set(self@.images) =~= path_set(orig));
        }
    }

    /// Records a decision for the picture with the given id, stamping it with
    /// `now`; a missing id changes nothing.
    pub fn set_status_at(&mut self, id: i64, status: ImageStatus, now: &str)
        requires
            old(self).wf(),
        ensures
            final(self).wf(),
            final(self)@.path == old(self)@.path,
            final(self)@.next_id == old(self)@.next_id,
            final(self)@.images == update_id(old(self)@.images, id as int, status_change(status, now@)),
    {
        self.apply_change(id, Some(status), None, now);
    }

    /// Records a decision for the picture with the given id, stamped with the
    /// current time; a missing id changes nothing. When the clock cannot be
    /// read as a date, nothing changes and the clock's `Io` error is returned.
    pub fn set_status(&mut self, id: i64, status: ImageStatus) -> (r: Result<(), Error>)
        requires
            old(self).wf(),
        ensures
            final(self).wf(),
            match r {
                Ok(()) => final(self)@.path == old(self)@.path && final(self)@.next_id == old(self)@.next_id
                    && exists|now: Seq<char>|
                    clock_text(now) && final(self)@.images == #[trigger] update_id(old(self)@.images, id as int, status_change(status, now)),
                Err(e) => final(self)@ == old(self)@ && (e matches Error::Io(m) && m@ == clock_message()),
            },
    {
        match utc_now() {
            Ok(now) => {
                self.set_status_at(id, status, now.as_str());
                Ok(())
            },
            Err(e) => Err(e),
        }
    }

    /// Clears the stored error of the picture with the given id, stamping it
    /// with `now`.
    pub fn clear_last_error_at(&mut self, id: i64, now: &str)
        requires
            old(self).wf(),
        ensures
            final(self).wf(),
            final(self)@.path == old(self)@.path,
            final(self)@.next_id == old(self)@.next_id,
            final(self)@.images == update_id(old(self)@.images, id as int, error_change(None, now@)),
    {
        self.apply_change(id, None, Some(None), now);
    }

    /// Clears the stored error of the picture with the given id, stamped with
    /// the current time.
    pub fn clear_last_error(&mut self, id: i64) -> (r: Result<(), Error>)
        requires
            old(self).wf(),
        ensures
            final(self).wf(),
            match r {
                Ok(()) => final(self)@.path == old(self)@.path && final(self)@.next_id == old(self)@.next_id
                    && exists|now: Seq<char>|
                    clock_text(now) && final(self)@.images == #[trigger] update_id(old(self)@.images, id as int, error_change(None, now)),
                Err(e) => final(self)@ == old(self)@ && (e matches Error::Io(m) && m@ == clock_message()),
            },
    {
        match utc_now() {
            Ok(now) => {
                self.clear_last_error_at(id, now.as_str());
                Ok(())
            },
            Err(e) => Err(e),
        }
    }

    /// Stores an error message for the picture with the given id, stamping it
    /// with `now`.
    pub fn store_last_error_at(&mut self, id: i64, message: &str, now: &str)
        requires
            old(self).wf(),
        ensures
            final(self).wf(),
            final(self)@.path == old(self)@.path,
            final(self)@.next_id == old(self)@.next_id,
            final(self)@.images == update_id(
                old(self)@.images,
                id as int,
                error_change(Some(message@), now@),
            ),
    {
        let m = crate::text::string_of(&crate::text::chars_of(message));
        self.apply_change(id, None, Some(Some(m)), now);
    }

    /// Stores an error message for the picture with the given id, stamped with
    /// the current time.
    pub fn store_last_error(&mut self, id: i64, message: &str) -> (r: Result<(), Error>)
        requires
            old(self).wf(),
        ensures
            final(self).wf(),
            match r {
                Ok(()) => final(self)@.path == old(self)@.path && final(self)@.next_id == old(self)@.next_id
                    && exists|now: Seq<char>|
                    clock_text(now) && final(self)@.images == #[trigger] update_id(old(self)@.images, id as int, error_change(Some(message@), now)),
                Err(e) => final(self)@ == old(self)@ && (e matches Error::Io(m) && m@ == clock_message()),
            },
    {
        match utc_now() {
            Ok(now) => {
                self.store_last_error_at(id, message, now.as_str());
                Ok(())
            },
            Err(e) => Err(e),
        }
    }

    /// Whether a picture with this path is in the project.
    pub fn path_exists(&self, path: &str) -> (r: bool)
        requires
            self.wf(),
        ensures
            r == exists|i: int| 0 <= i < self@.images.len() && self@.images[i].path == path@,
    {
        let r = self.paths.contains(path);
        assert(r == path_set(self@.images).contains(path@));
        r
    }

    /// A project at `db_path` holding `rows`, which must come in position
    /// order. Rows out of position order, or more rows than `i64` can count,
    /// are a `Database` error. The next id is one above the largest id (and at
    /// least 1).
    pub fn from_rows(db_path: String, rows: Vec<ImageChoice>) -> (r: Result<Project, Error>)
        ensures
            match r {
                Ok(p) => {
                    &&& p.wf()
                    &&& p@.path == db_path@
                    &&& p@.images == records(rows@)
                    &&& p@.next_id == max_id(records(rows@)) + 1
                },
                Err(e) => {
                    &&& e is Database
                    &&& !(rows@.len() <= i64::MAX && positions_ordered(records(rows@)))
                },
            },
    {
        if rows.len() as u64 > i64::MAX as u64 {
            return Err(Error::Database(crate::text::string_of(&crate::text::chars_of("too many images in project"))));
        }
        let ghost recs = records(rows@);
        let mut paths = StringHashSet::new();
        let mut max: i64 = 0;
        let mut i: usize = 0;
        while i < rows.len()
            invariant
                recs == records(rows@),
                i <= rows@.len(),
                rows@.len() <= i64::MAX,
                positions_ordered(recs.subrange(0, i as int)),
                max == max_id(recs.subrange(0, i as int)),
                paths@ == path_set(recs.subrange(0, i as int)),
            decreases rows.len() - i,
        {
            let ghost pre = recs.subrange(0, i as int);
            let ghost cur = recs.subrange(0, i + 1);
            proof {
                assert(cur.drop_last() == pre);
                assert(cur.last() == rows@[i as int]@);
                lemma_max_id_nonneg(pre);
            }
            if i > 0 && rows[i - 1].position > rows[i].position {
                proof {
                    assert(!positions_ordered(recs)) by {
                        assert(recs[i - 1].position > recs[i as int].position);
                    }
                }
                return Err(Error::Database(crate::text::string_of(&crate::text::chars_of("image rows are not in position order"))));
            }
            if rows[i].id > max {
                max = rows[i].id;
            }
            paths.insert(rows[i].path.clone());
            i = i + 1;
            proof {
                assert forall|a: int, b: int| 0 <= a < b < cur.len() implies cur[a].position <= cur[b].position by {
                    if b < cur.len() - 1 {
                        assert(pre[a].position <= pre[b].position);
                    } else if a < b - 1 {
                        assert(pre[a].position <= pre[b - 1].position);
                    }
                }
                assert(paths@ =~= path_set(cur)) by {
                    assert forall|p: Seq<char>| path_set(cur).contains(p) == paths@.contains(p) by {
                        if path_set(pre).contains(p) {
                            let k = choose|k: int| 0 <= k < pre.len() && pre[k].path == p;
                            assert(cur[k].path == p);
                        }
                        if path_set(cur).contains(p) && p != cur.last().path {
                            let k = choose|k: int| 0 <= k < cur.len() && cur[k].path == p;
                            assert(pre[k].path == p);
                        }
                        if p == cur.last().path {
                            assert(cur[cur.len() - 1].path == p);
                        }
                    }
                }
            }
        }
        proof {
            assert(recs.subrange(0, rows@.len() as int) == recs);
            lemma_max_id_bounds(recs);
        }
        let next_id: i128 = max as i128 + 1;
        Ok(Project { db_path, images: rows, paths, next_id })
    }
}

/// Positions never decrease along the table.
pub open spec fn positions_ordered(images: Seq<ImageRecord>) -> bool {
    forall|i: int, j: int| 0 <= i < j < images.len() ==> images[i].position <= images[j].position
}

/// The largest id of a table, or 0 when it is larger than every id.
pub open spec fn max_id(images: Seq<ImageRecord>) -> int
    decreases images.len(),
{
    if images.len() == 0 {
        0
    } else {
        let m = max_id(images.drop_last());
        if images.last().id > m {
            images.last().id
        } else {
            m
        }
    }
}

/// `max_id` is never negative.
pub proof fn lemma_max_id_nonneg(images: Seq<ImageRecord>)
    ensures
        max_id(images) >= 0,
    decreases images.len(),
{
    if images.len() > 0 {
        lemma_max_id_nonneg(images.drop_last());
    }
}

/// Every id is at most `max_id`.
pub proof fn lemma_max_id_bounds(images: Seq<ImageRecord>)
    ensures
        forall|i: int| 0 <= i < images.len() ==> images[i].id <= max_id(images),
        max_id(images) >= 0,
    decreases images.len(),
{
    lemma_max_id_nonneg(images);
    if images.len() > 0 {
        lemma_max_id_bounds(images.drop_last());
        assert forall|i: int| 0 <= i < images.len() implies images[i].id <= max_id(images) by {
            if i < images.len() - 1 {
                assert(images.drop_last()[i] == images[i]);
            }
        }
    }
}


/// The paths of two tables put together.
pub proof fn lemma_path_set_concat(a: Seq<ImageRecord>, b: Seq<ImageRecord>)
    ensures
        path_set(a + b) == path_set(a).union(path_set(b)),
{
    assert forall|p: Seq<char>| path_set(a + b).contains(p) == path_set(a).union(path_set(b)).contains(p) by {
        if path_set(a + b).contains(p) {
            let k = choose|k: int| 0 <= k < (a + b).len() && (a + b)[k].path == p;
            if k < a.len() {
                assert(a[k].path == p);
            } else {
                assert(b[k - a.len()].path == p);
            }
        }
        if path_set(a).contains(p) {
            let k = choose|k: int| 0 <= k < a.len() && a[k].path == p;
            assert((a + b)[k].path == p);
        }
        if path_set(b).contains(p) {
            let k = choose|k: int| 0 <= k < b.len() && b[k].path == p;
            assert((a + b)[a.len() + k].path == p);
        }
    }
    assert(path_set(a + b) =~= path_set(a).union(path_set(b)));
}

/// With positions in order, the largest position is the last one.
pub proof fn lemma_max_position_last(images: Seq<ImageRecord>)
    requires
        positions_ordered(images),
        images.len() > 0,
    ensures
        max_position(images) == images.last().position,
    decreases images.len(),
{
    if images.len() > 1 {
        let d = images.drop_last();
        assert(positions_ordered(d)) by {
            assert forall|i: int, j: int| 0 <= i < j < d.len() implies d[i].position <= d[j].position by {
                assert(d[i] == images[i] && d[j] == images[j]);
            }
        }
        lemma_max_position_last(d);
        assert(d.last() == images[images.len() - 2]);
    }
}

/// Adding more new pictures never removes rows from the result.
pub proof fn lemma_insert_or_ignore_grows(
    images: Seq<ImageRecord>,
    sorted: Seq<CandidateView>,
    j: int,
    m: int,
    base: int,
    next_id: int,
    now: Seq<char>,
)
    requires
        0 <= j <= m <= sorted.len(),
    ensures
        insert_or_ignore(images, sorted.subrange(0, j), base, next_id, now).len() <= insert_or_ignore(
            images,
            sorted.subrange(0, m),
            base,
            next_id,
            now,
        ).len(),
        insert_or_ignore(images, sorted.subrange(0, j), base, next_id, now).len() >= images.len(),
    decreases m,
{
    if j < m {
        lemma_insert_or_ignore_grows(images, sorted, j, m - 1, base, next_id, now);
        assert(sorted.subrange(0, m).drop_last() =~= sorted.subrange(0, m - 1));
    } else if m > 0 {
        lemma_insert_or_ignore_grows(images, sorted, j - 1, m - 1, base, next_id, now);
        assert(sorted.subrange(0, m).drop_last() =~= sorted.subrange(0, m - 1));
    } else {
        assert(sorted.subrange(0, 0).len() == 0);
    }
}

/// Whether an import of `n` new pictures stays within what a project can
/// hold: positions and the number of pictures fit in `i64`, and the counters
/// of the summary in `usize`.
pub open spec fn import_fits(v: ProjectView, summary: ImportSummary, n: int) -> bool {
    &&& max_position(v.images) + n <= i64::MAX
    &&& v.images.len() + n <= i64::MAX
    &&& summary.imported + summary.duplicates + n <= usize::MAX
}

/// The result of adding the new pictures, in the import order `sorted`, to a
/// project: the table gains the rows `insert_or_ignore` plans, ids run on
/// from the next id, and the summary counts the added pictures as imported
/// and the others as duplicates. When the ids would run past `i64::MAX` the
/// import is refused with a `Database` error and nothing changes.
pub open spec fn import_outcome(
    before: ProjectView,
    after: ProjectView,
    summary: ImportSummary,
    sorted: Seq<CandidateView>,
    now: Seq<char>,
    r: Result<ImportSummary, Error>,
) -> bool {
    let planned = insert_or_ignore(
        before.images,
        sorted,
        max_position(before.images),
        before.next_id,
        now,
    );
    let added = planned.len() - before.images.len();
    match r {
        Ok(s) => {
            &&& after.path == before.path
            &&& after.images == planned
            &&& after.next_id == before.next_id + added
            &&& added <= i64::MAX + 1 - before.next_id
            &&& s == ImportSummary {
                imported: (summary.imported + added) as usize,
                duplicates: (summary.duplicates + sorted.len() - added) as usize,
                ..summary
            }
        },
        Err(e) => {
            &&& e is Database
            &&& added > i64::MAX + 1 - before.next_id
            &&& after == before
        },
    }
}

impl Project {
    /// Whether `import_scan` can take this scan (see `import_fits`).
    pub fn can_import(&self, scan: &ImportScan) -> (r: bool)
        requires
            self.wf(),
        ensures
            r == import_fits(self@, scan.summary, scan.candidates@.len() as int),
    {
        let n = scan.candidates.len();
        let len = self.images.len();
        let base: i64 = if len == 0 {
            0
        } else {
            self.images[len - 1].position
        };
        proof {
            if len > 0 {
                lemma_max_position_last(self@.images);
            }
        }
        (n as u64) <= (i64::MAX as u64) && base as i128 + n as i128 <= i64::MAX as i128
            && len as i128 + n as i128 <= i64::MAX as i128 && scan.summary.imported as u128
            + scan.summary.duplicates as u128 + n as u128 <= usize::MAX as u128
    }

    /// Adds the new pictures of a scan, in import order, stamped with `now`.
    pub fn import_scan_at(&mut self, scan: ImportScan, now: &str) -> (r: Result<ImportSummary, Error>)
        requires
            old(self).wf(),
            scan.settled(),
            import_fits(old(self)@, scan.summary, scan.candidates@.len() as int),
        ensures
            final(self).wf(),
            exists|sorted: Seq<CandidateView>|
                import_ordered(candidate_views(scan.candidates@), sorted) && import_outcome(
                    old(self)@,
                    final(self)@,
                    scan.summary,
                    sorted,
                    now@,
                    r,
                ),
    {
        let ImportScan { summary, candidates, stage: _ } = scan;
        let ghost before = self@;
        let ghost old_images = self@.images;
        let ghost cviews = candidate_views(candidates@);
        let sorted = sort_candidates(candidates);
        let ghost sv = candidate_views(sorted@);
        assert(import_ordered(cviews, sv));
        let n = sorted.len();
        let len = self.images.len();
        let base: i64 = if len == 0 {
            0
        } else {
            self.images[len - 1].position
        };
        proof {
            if len > 0 {
                lemma_max_position_last(old_images);
            }
            assert(sv.subrange(0, 0) =~= Seq::<CandidateView>::empty());
            assert(records(Seq::<ImageChoice>::empty()) =~= Seq::<ImageRecord>::empty());
            assert(old_images + Seq::<ImageRecord>::empty() =~= old_images);
        }
        let ghost next0 = self@.next_id;
        let mut added: Vec<ImageChoice> = Vec::new();
        let mut added_paths = StringHashSet::new();
        let mut next: i128 = self.next_id;
        let mut imported: usize = summary.imported;
        let mut duplicates: usize = summary.duplicates;
        let mut k: usize = 0;
        proof {
            assert(path_set(records(added@)) =~= Set::<Seq<char>>::empty());
        }
        while k < n
            invariant
                self@ == before,
                before == old(self)@,
                cviews == candidate_views(scan.candidates@),
                import_ordered(cviews, sv),
                self.wf(),
                old_images == before.images,
                next0 == before.next_id,
                n == sorted@.len(),
                sv == candidate_views(sorted@),
                len == old_images.len(),
                base == max_position(old_images),
                import_fits(before, summary, n as int),
                k <= n,
                old_images + records(added@) == insert_or_ignore(
                    old_images,
                    sv.subrange(0, k as int),
                    base as int,
                    next0,
                    now@,
                ),
                added@.len() <= k,
                next == next0 + added@.len(),
                next <= i64::MAX + 1,
                added_paths@ == path_set(records(added@)),
                imported == summary.imported + added@.len(),
                duplicates == summary.duplicates + k - added@.len(),
                forall|j: int| 0 <= j < added@.len() ==> #[trigger] added@[j].position > base,
                forall|j: int| 0 <= j < added@.len() ==> #[trigger] added@[j].position <= base + k,
                forall|a: int, b: int|
                    0 <= a < b < added@.len() ==> added@[a].position < added@[b].position,
                forall|j: int| 0 <= j < added@.len() ==> #[trigger] added@[j].id < next,
            decreases n - k,
        {
            let c = &sorted[k];
            let ghost prefix = sv.subrange(0, k as int);
            let ghost cur = sv.subrange(0, k + 1);
            proof {
                assert(cur.drop_last() =~= prefix);
                assert(cur.last() == c@);
                lemma_path_set_concat(old_images, records(added@));
                assert(self.paths@ == path_set(old_images));
            }
            let known = self.paths.contains(c.path.as_str()) || added_paths.contains(c.path.as_str());
            if known {
                duplicates = duplicates + 1;
            } else {
                if next > i64::MAX as i128 {
                    proof {
                        lemma_insert_or_ignore_grows(old_images, sv, k + 1, n as int, base as int, next0, now@);
                        assert(sv.subrange(0, n as int) =~= sv);
                    }
                    let e = Error::Database(crate::text::string_of(&crate::text::chars_of("database or disk is full")));
                    proof {
                        assert(import_outcome(before, self@, summary, sv, now@, Err(e)));
                    }
                    return Err(e);
                }
                let position: i64 = base + k as i64 + 1;
                let row = ImageChoice {
                    id: next as i64,
                    path: c.path.clone(),
                    status: ImageStatus::Unseen,
                    position,
                    ordering_timestamp: crate::image::clone_opt(&c.ordering_timestamp),
                    ordering_source: c.ordering_source.clone(),
                    last_error: None,
                    created_at: crate::text::string_of(&crate::text::chars_of(now)),
                    updated_at: crate::text::string_of(&crate::text::chars_of(now)),
                };
                let ghost added_before = added@;
                proof {
                    assert(row@ == new_record(c@, next0 + added_before.len(), base + cur.len(), now@));
                }
                added.push(row);
                added_paths.insert(c.path.clone());
                next = next + 1;
                imported = imported + 1;
                proof {
                    assert(records(added@) =~= records(added_before).push(row@));
                    assert(path_set(records(added@)) =~= path_set(records(added_before)).insert(c@.path)) by {
                        lemma_path_set_concat(records(added_before), seq![row@]);
                        assert(records(added_before).push(row@) =~= records(added_before) + seq![row@]);
                        assert(path_set(seq![row@]) =~= set![row@.path]) by {
                            assert(seq![row@][0].path == row@.path);
                        }
                    }
                    assert(old_images + records(added@) =~= (old_images + records(added_before)).push(row@));
                }
            }
            k = k + 1;
        }
        proof {
            assert(sv.subrange(0, n as int) =~= sv);
        }
        let ghost added_view = added@;
        let mut j: usize = 0;
        while j < added.len()
            invariant
                j <= added@.len(),
                added@ == added_view,
                self@.images == old_images,
                self@.path == before.path,
                self.next_id == before.next_id,
                self.paths@ == path_set(old_images).union(path_set(records(added@.subrange(0, j as int)))),
            decreases added.len() - j,
        {
            let ghost pre = self.paths@;
            self.paths.insert(added[j].path.clone());
            proof {
                let s0 = records(added@.subrange(0, j as int));
                let s1 = records(added@.subrange(0, j + 1));
                assert(s1 =~= s0.push(added@[j as int]@));
                lemma_path_set_concat(s0, seq![added@[j as int]@]);
                assert(s0.push(added@[j as int]@) =~= s0 + seq![added@[j as int]@]);
                assert(path_set(seq![added@[j as int]@]) =~= set![added@[j as int]@.path]) by {
                    assert(seq![added@[j as int]@][0].path == added@[j as int]@.path);
                }
                assert(self.paths@ =~= path_set(old_images).union(path_set(s1)));
            }
            j = j + 1;
        }
        proof {
            assert(added@.subrange(0, added@.len() as int) =~= added@);
            lemma_path_set_concat(old_images, records(added@));
        }
        let ghost added_recs = records(added@);
        self.images.append(&mut added);
        self.next_id = next;
        proof {
            assert(records(self.images@) =~= old_images + added_recs);
            let all = self@.images;
            assert forall|a: int, b: int| 0 <= a < b < all.len() implies all[a].position <= all[b].position by {
                if b < len {
                } else if a < len {
                    assert(all[b] == added_view[b - len]@);
                    if len > 0 {
                        assert(old_images[a].position <= old_images[len - 1].position);
                    }
                } else {
                    assert(all[a] == added_view[a - len]@);
                    assert(all[b] == added_view[b - len]@);
                }
            }
            assert forall|a: int| 0 <= a < all.len() implies all[a].id < self@.next_id by {
                if a >= len {
                    assert(all[a] == added_view[a - len]@);
                }
            }
        }
        let out = ImportSummary { imported, duplicates, ..summary };
        proof {
            assert(import_outcome(before, self@, summary, sv, now@, Ok(out)));
        }
        Ok(out)
    }

    /// Adds the new pictures of a scan, in import order, stamped with the
    /// current time. When the clock cannot be read as a date, nothing
    /// changes and the clock's `Io` error is returned.
    pub fn import_scan(&mut self, scan: ImportScan) -> (r: Result<ImportSummary, Error>)
        requires
            old(self).wf(),
            scan.settled(),
            import_fits(old(self)@, scan.summary, scan.candidates@.len() as int),
        ensures
            final(self).wf(),
            (r matches Err(e) && (e matches Error::Io(m) && m@ == clock_message())
                && final(self)@ == old(self)@) || exists|sorted: Seq<CandidateView>, now: Seq<char>|
                clock_text(now) && import_ordered(candidate_views(scan.candidates@), sorted) && import_outcome(
                    old(self)@,
                    final(self)@,
                    scan.summary,
                    sorted,
                    now,
                    r,
                ),
    {
        match utc_now() {
            Ok(now) => self.import_scan_at(scan, now.as_str()),
            Err(e) => Err(e),
        }
    }
}

} // verus!
