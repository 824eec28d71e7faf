//! Export of the selected pictures: which pictures, under which names, into
//! which folder, and the manifest that lists them.

use vstd::prelude::*;
use crate::error::Error;
use crate::image::{ImageChoice, ImageRecord};
use crate::paths::{file_name, file_name_of, join, join_path, with_extension, with_extension_of};
use crate::project::{records, Project, ProjectView, update_id, error_change};
use crate::status::ImageStatus;
use crate::text::{chars_of, decimal, push_char, push_chars, push_signed, push_str, push_zero_padded, signed_decimal, string_of, zero_padded};

verus! {

/// The name under which the picture at 1-based `index` of an export is
/// copied: the index with six digits, `_`, and the picture's file name.
pub open spec fn export_name(index: nat, path: Seq<char>) -> Option<Seq<char>> {
    match file_name(path) {
        Some(name) => Some(zero_padded(index, 6) + seq!['_'] + name),
        None => None,
    }
}

/// The export name of a picture; a path without a file name is a
/// `PathHasNoFileName` error carrying the path.
pub fn export_filename(index: usize, original_path: &str) -> (r: Result<String, Error>)
    ensures
        match r {
            Ok(name) => export_name(index as nat, original_path@) == Some(name@),
            Err(e) => export_name(index as nat, original_path@) is None && (e matches Error::PathHasNoFileName(p) && p@ == original_path@),
        },
{
    match file_name_of(original_path) {
        Some(name) => {
            let mut out = String::new();
            push_zero_padded(&mut out, index as u64, 6);
            push_char(&mut out, '_');
            push_str(&mut out, name.as_str());
            Ok(out)
        },
        None => Err(Error::PathHasNoFileName(string_of(&chars_of(original_path)))),
    }
}

/// `image-chooser-export-`, the start of every export folder name.
pub open spec fn export_prefix() -> Seq<char> {
    seq![
        'i', 'm', 'a', 'g', 'e', '-', 'c', 'h', 'o', 'o', 's', 'e', 'r', '-', 'e', 'x', 'p', 'o', 'r', 't', '-'
    ]
}

/// The name of the export folder for a time stamp; when that folder exists,
/// suffixes `-001`, `-002`, ... are tried.
pub open spec fn export_dir_name_spec(timestamp: Seq<char>, suffix: nat) -> Seq<char> {
    if suffix == 0 {
        export_prefix() + timestamp
    } else {
        export_prefix() + timestamp + seq!['-'] + zero_padded(suffix, 3)
    }
}

/// The name of the export folder for a time stamp and a suffix number.
pub fn export_dir_name(timestamp: &str, suffix: u32) -> (r: String)
    ensures
        r@ == export_dir_name_spec(timestamp@, suffix as nat),
{
    let mut out = string_of(
        &vec![
            'i', 'm', 'a', 'g', 'e', '-', 'c', 'h', 'o', 'o', 's', 'e', 'r', '-', 'e', 'x', 'p', 'o', 'r', 't', '-'
        ],
    );
    push_str(&mut out, timestamp);
    if suffix != 0 {
        push_char(&mut out, '-');
        push_zero_padded(&mut out, suffix as u64, 3);
    }
    out
}

/// The number of export folder names tried before giving up.
pub const EXPORT_DIR_ATTEMPTS: u32 = 1000;

/// The export folder paths under `root` for a time stamp, in the order in
/// which they are tried.
pub fn export_dir_candidates(root: &str, timestamp: &str) -> (r: Vec<String>)
    ensures
        r@.len() == EXPORT_DIR_ATTEMPTS,
        forall|k: int|
            0 <= k < r@.len() ==> #[trigger] r@[k]@ == join(root@, export_dir_name_spec(timestamp@, k as nat)),
{
    let mut out: Vec<String> = Vec::new();
    let mut k: u32 = 0;
    while k < EXPORT_DIR_ATTEMPTS
        invariant
            k <= EXPORT_DIR_ATTEMPTS,
            out@.len() == k,
            forall|j: int|
                0 <= j < k ==> #[trigger] out@[j]@ == join(root@, export_dir_name_spec(timestamp@, j as nat)),
        decreases EXPORT_DIR_ATTEMPTS - k,
    {
        let name = export_dir_name(timestamp, k);
        out.push(join_path(root, name.as_str()));
        k = k + 1;
    }
    out
}

/// How an attempt to create an export folder went.
#[derive(Debug, Clone, PartialEq, Eq)]
pub enum CreateOutcome {
    Created,
    AlreadyExists,
    Failed(String),
}

/// What the search for a fresh export folder does after an attempt.
#[derive(Debug, Clone, PartialEq, Eq)]
pub enum DirStep {
    /// The folder was created: the export goes there.
    Use(String),
    /// The folder exists: try the next candidate.
    TryNext,
    /// The search ends with this error.
    Stop(Error),
}

/// The message when every export folder name is taken.
pub open spec fn exhausted_message() -> Seq<char> {
    "could not create a unique timestamped export directory"@
}

/// The step after trying to create candidate `k`: a created folder is the
/// export folder; an existing one moves on to the next candidate, or ends
/// the search with an `Io` error after the last one; any other failure ends
/// the search with that failure as an `Io` error.
pub fn after_create_attempt(candidates: &Vec<String>, k: usize, outcome: CreateOutcome) -> (r: DirStep)
    requires
        k < candidates@.len(),
    ensures
        match outcome {
            CreateOutcome::Created => r matches DirStep::Use(p) && p@ == candidates@[k as int]@,
            CreateOutcome::AlreadyExists => if k + 1 < candidates@.len() {
                r is TryNext
            } else {
                r matches DirStep::Stop(Error::Io(m)) && m@ == exhausted_message()
            },
            CreateOutcome::Failed(m) => r matches DirStep::Stop(Error::Io(x)) && x@ == m@,
        },
{
    match outcome {
        CreateOutcome::Created => DirStep::Use(candidates[k].clone()),
        CreateOutcome::AlreadyExists => {
            if k < candidates.len() - 1 {
                DirStep::TryNext
            } else {
                DirStep::Stop(Error::Io(string_of(&chars_of("could not create a unique timestamped export directory"))))
            }
        },
        CreateOutcome::Failed(m) => DirStep::Stop(Error::Io(m)),
    }
}

/// `sqlite.bak-`, the start of the extension of a backup.
pub open spec fn backup_extension_prefix() -> Seq<char> {
    seq!['s', 'q', 'l', 'i', 't', 'e', '.', 'b', 'a', 'k', '-']
}

/// The backup copy of a project file taken before it is opened: the
/// extension of the file replaced by `sqlite.bak-` and the time stamp.
pub fn backup_path_for(db_path: &str, timestamp: &str) -> (r: String)
    ensures
        r@ == with_extension(db_path@, backup_extension_prefix() + timestamp@),
{
    let mut ext = string_of(&vec!['s', 'q', 'l', 'i', 't', 'e', '.', 'b', 'a', 'k', '-']);
    push_str(&mut ext, timestamp);
    with_extension_of(db_path, ext.as_str())
}

/// A line of the export manifest.
pub struct ManifestRow {
    pub exported_filename: String,
    pub original_path: String,
    pub status: String,
    pub position: i64,
}

/// A selected picture that could not be copied.
#[derive(Debug, Clone, PartialEq, Eq)]
pub struct ExportFailure {
    pub original_path: String,
    pub destination_path: String,
    pub message: String,
}

/// What an export did.
#[derive(Debug, Clone, PartialEq, Eq)]
pub struct ExportSummary {
    pub export_dir: String,
    pub copied: usize,
    pub failed: Vec<ExportFailure>,
}

/// One copy an export asks for: the picture, where it comes from and where
/// it goes, and the name it gets.
pub struct CopyJob {
    pub image_id: i64,
    pub source: String,
    pub destination: String,
    pub exported_filename: String,
}

/// An export in progress: the selected pictures in position order, how many
/// have been handled, and what came of them.
pub struct ExportRun {
    pub export_dir: String,
    pub selected: Vec<ImageChoice>,
    pub next: usize,
    pub copied: usize,
    pub failed: Vec<ExportFailure>,
    pub manifest: Vec<ManifestRow>,
}

/// The selected pictures of a table, in position order.
pub open spec fn selected_of(images: Seq<ImageRecord>) -> Seq<ImageRecord>
    decreases images.len(),
{
    if images.len() == 0 {
        Seq::empty()
    } else if images.last().status == ImageStatus::Selected {
        selected_of(images.drop_last()).push(images.last())
    } else {
        selected_of(images.drop_last())
    }
}

/// The content of a manifest line: file name, original path, status word
/// and position.
pub open spec fn manifest_line(r: ManifestRow) -> Seq<Seq<char>> {
    seq![r.exported_filename@, r.original_path@, r.status@, signed_decimal(r.position as int)]
}

/// The header line of the manifest.
pub open spec fn manifest_header() -> Seq<Seq<char>> {
    seq![
        seq!['e', 'x', 'p', 'o', 'r', 't', 'e', 'd', '_', 'f', 'i', 'l', 'e', 'n', 'a', 'm', 'e'],
        seq!['o', 'r', 'i', 'g', 'i', 'n', 'a', 'l', '_', 'p', 'a', 't', 'h'],
        seq!['s', 't', 'a', 't', 'u', 's'],
        seq!['p', 'o', 's', 'i', 't', 'i', 'o', 'n'],
    ]
}

/// All lines of the manifest: the header, then one line per copied picture.
pub open spec fn manifest_lines(rows: Seq<ManifestRow>) -> Seq<Seq<Seq<char>>> {
    seq![manifest_header()] + rows.map_values(|r: ManifestRow| manifest_line(r))
}

/// The bytes `csv::Writer` (default settings) writes for a list of records.
pub uninterp spec fn csv_encoding(records: Seq<Seq<Seq<char>>>) -> Seq<u8>;

/// `csv::Writer::from_writer` over a `Vec<u8>`, `Writer::write_record` for
/// each record, then `Writer::into_inner`. The contract states that the
/// bytes are `csv_encoding` of the records, and that records of equal length
/// are always written (the writer only fails on records of unequal length
/// or on errors of the underlying writer, which a `Vec` never gives).
#[verifier::external_body]
fn csv_encode(records: &Vec<Vec<String>>) -> (r: Result<Vec<u8>, String>)
    ensures
        r matches Ok(b) ==> b@ == csv_encoding(records.deep_view()),
        (forall|i: int, j: int|
            0 <= i < records@.len() && 0 <= j < records@.len() ==> records@[i]@.len()
                == records@[j]@.len()) ==> r is Ok,
{
    let mut w = csv::Writer::from_writer(Vec::new());
    for record in records {
        if let Err(e) = w.write_record(record) {
            return Err(e.to_string());
        }
    }
    match w.into_inner() {
        Ok(bytes) => Ok(bytes),
        Err(e) => Err(e.to_string()),
    }
}

/// The path of the manifest inside an export folder.
pub fn manifest_path(export_dir: &str) -> (r: String)
    ensures
        r@ == join(export_dir@, seq!['m', 'a', 'n', 'i', 'f', 'e', 's', 't', '.', 'c', 's', 'v']),
{
    let name = string_of(&vec!['m', 'a', 'n', 'i', 'f', 'e', 's', 't', '.', 'c', 's', 'v']);
    join_path(export_dir, name.as_str())
}

impl Project {
    /// The selected pictures, in position order.
    pub fn selected_images(&self) -> (r: Vec<ImageChoice>)
        requires
            self.wf(),
        ensures
            records(r@) == selected_of(self@.images),
    {
        let v = match self.images_by_position() {
            Ok(v) => v,
            Err(_) => Vec::new(),
        };
        let ghost all = records(v@);
        let mut out: Vec<ImageChoice> = Vec::new();
        let mut i: usize = 0;
        while i < v.len()
            invariant
                all == records(v@),
                all == self@.images,
                i <= v@.len(),
                records(out@) == selected_of(all.subrange(0, i as int)),
            decreases v.len() - i,
        {
            let ghost pre = all.subrange(0, i as int);
            proof {
                assert(all.subrange(0, i + 1).drop_last() =~= pre);
                assert(all.subrange(0, i + 1).last() == v@[i as int]@);
            }
            if v[i].status == ImageStatus::Selected {
                let c = v[i].clone();
                let ghost before = out@;
                out.push(c);
                assert(records(out@) =~= records(before).push(c@));
            }
            i = i + 1;
        }
        assert(all.subrange(0, v@.len() as int) =~= all);
        out
    }

    /// Starts an export of the selected pictures into `export_dir`.
    pub fn begin_export(&self, export_dir: String) -> (r: ExportRun)
        requires
            self.wf(),
        ensures
            r.export_dir == export_dir,
            records(r.selected@) == selected_of(self@.images),
            r.next == 0,
            r.copied == 0,
            r.failed@.len() == 0,
            r.manifest@.len() == 0,
            r.tallied(),
    {
        ExportRun {
            export_dir,
            selected: self.selected_images(),
            next: 0,
            copied: 0,
            failed: Vec::new(),
            manifest: Vec::new(),
        }
    }
}

impl ExportRun {
    /// Every picture handled so far was either copied, with a line in the
    /// manifest, or listed as a failure.
    pub open spec fn tallied(&self) -> bool {
        &&& self.copied + self.failed@.len() == self.next
        &&& self.manifest@.len() == self.copied
    }

    /// The copy for the next selected picture: `None` when every picture has
    /// been handled, a `PathHasNoFileName` error when its path has no file
    /// name (which ends the export).
    pub fn next_job(&self) -> (r: Option<Result<CopyJob, Error>>)
        ensures
            self.next >= self.selected@.len() <==> r is None,
            r matches Some(res) ==> {
                let img = self.selected@[self.next as int];
                match res {
                    Ok(job) => {
                        &&& export_name((self.next + 1) as nat, img.path@) == Some(job.exported_filename@)
                        &&& job.image_id == img.id
                        &&& job.source@ == img.path@
                        &&& job.destination@ == join(self.export_dir@, job.exported_filename@)
                    },
                    Err(e) => {
                        &&& export_name((self.next + 1) as nat, img.path@) is None
                        &&& e matches Error::PathHasNoFileName(p) && p@ == img.path@
                    },
                }
            },
    {
        if self.next >= self.selected.len() {
            return None;
        }
        let img = &self.selected[self.next];
        match export_filename(self.next + 1, img.path.as_str()) {
            Ok(name) => {
                let destination = join_path(self.export_dir.as_str(), name.as_str());
                Some(
                    Ok(
                        CopyJob {
                            image_id: img.id,
                            source: img.path.clone(),
                            destination,
                            exported_filename: name,
                        },
                    ),
                )
            },
            Err(e) => Some(Err(e)),
        }
    }

    /// Records how the copy of the next selected picture went: a copied
    /// picture gets a manifest line and its stored error cleared; a failed
    /// one is listed with the message, which is stored with the picture. The
    /// picture's change is stamped with `now`.
    pub fn record_copy(&mut self, project: &mut Project, outcome: Result<(), String>, now: &str)
        requires
            old(self).next < old(self).selected@.len(),
            export_name((old(self).next + 1) as nat, old(self).selected@[old(self).next as int].path@) is Some,
            old(self).copied < usize::MAX,
            old(project).wf(),
        ensures
            final(project).wf(),
            final(project)@.path == old(project)@.path,
            final(project)@.next_id == old(project)@.next_id,
            final(self).next == old(self).next + 1,
            final(self).export_dir == old(self).export_dir,
            final(self).selected == old(self).selected,
            old(self).tallied() ==> final(self).tallied(),
            ({
                let img = old(self).selected@[old(self).next as int];
                let name = export_name((old(self).next + 1) as nat, img.path@).unwrap();
                match outcome {
                    Ok(()) => {
                        &&& final(self).copied == old(self).copied + 1
                        &&& final(self).failed == old(self).failed
                        &&& final(self).manifest@.len() == old(self).manifest@.len() + 1
                        &&& final(self).manifest@.subrange(0, old(self).manifest@.len() as int) == old(self).manifest@
                        &&& ({
                            let row = final(self).manifest@.last();
                            &&& row.exported_filename@ == name
                            &&& row.original_path@ == img.path@
                            &&& row.status@ == img.status.label()
                            &&& row.position == img.position
                        })
                        &&& final(project)@.images == update_id(old(project)@.images, img.id as int, error_change(None, now@))
                    },
                    Err(message) => {
                        &&& final(self).copied == old(self).copied
                        &&& final(self).manifest == old(self).manifest
                        &&& final(self).failed@.len() == old(self).failed@.len() + 1
                        &&& final(self).failed@.subrange(0, old(self).failed@.len() as int) == old(self).failed@
                        &&& ({
                            let f = final(self).failed@.last();
                            &&& f.original_path@ == img.path@
                            &&& f.destination_path@ == join(old(self).export_dir@, name)
                            &&& f.message@ == message@
                        })
                        &&& final(project)@.images == update_id(old(project)@.images, img.id as int, error_change(Some(message@), now@))
                    },
                }
            }),
    {
        let total = self.selected.len();
        assert(self.next < total);
        let img = self.selected[self.next].clone();
        let name = match export_filename(self.next + 1, img.path.as_str()) {
            Ok(n) => n,
            Err(_) => {
                assert(false);
                String::new()
            },
        };
        match outcome {
            Ok(()) => {
                project.clear_last_error_at(img.id, now);
                self.copied = self.copied + 1;
                let ghost before = self.manifest@;
                self.manifest.push(
                    ManifestRow {
                        exported_filename: name,
                        original_path: img.path.clone(),
                        status: string_of(&chars_of(img.status.as_str())),
                        position: img.position,
                    },
                );
                assert(self.manifest@.subrange(0, before.len() as int) =~= before);
            },
            Err(message) => {
                project.store_last_error_at(img.id, message.as_str(), now);
                let ghost before = self.failed@;
                self.failed.push(
                    ExportFailure {
                        original_path: img.path.clone(),
                        destination_path: join_path(self.export_dir.as_str(), name.as_str()),
                        message,
                    },
                );
                assert(self.failed@.subrange(0, before.len() as int) =~= before);
            },
        }
        self.next = self.next + 1;
    }

    /// The bytes of the manifest: a CSV file with a header line and one line
    /// per copied picture.
    pub fn manifest_bytes(&self) -> (r: Result<Vec<u8>, Error>)
        ensures
            r matches Ok(b) && b@ == csv_encoding(manifest_lines(self.manifest@)),
    {
        let mut lines: Vec<Vec<String>> = Vec::new();
        lines.push(
            vec![
                string_of(&vec!['e', 'x', 'p', 'o', 'r', 't', 'e', 'd', '_', 'f', 'i', 'l', 'e', 'n', 'a', 'm', 'e']),
                string_of(&vec!['o', 'r', 'i', 'g', 'i', 'n', 'a', 'l', '_', 'p', 'a', 't', 'h']),
                string_of(&vec!['s', 't', 'a', 't', 'u', 's']),
                string_of(&vec!['p', 'o', 's', 'i', 't', 'i', 'o', 'n']),
            ],
        );
        let ghost want = manifest_lines(self.manifest@);
        proof {
            assert(lines@[0].deep_view() =~= manifest_header());
        }
        let mut i: usize = 0;
        while i < self.manifest.len()
            invariant
                want == manifest_lines(self.manifest@),
                i <= self.manifest@.len(),
                lines@.len() == i + 1,
                forall|k: int| 0 <= k <= i ==> (#[trigger] lines@[k])@.len() == 4,
                forall|k: int| 0 <= k <= i ==> (#[trigger] lines@[k]).deep_view() == want[k],
            decreases self.manifest.len() - i,
        {
            let row = &self.manifest[i];
            let mut pos = String::new();
            push_signed(&mut pos, row.position);
            let line = vec![row.exported_filename.clone(), row.original_path.clone(), row.status.clone(), pos];
            proof {
                assert(line.deep_view() =~= manifest_line(self.manifest@[i as int]));
                assert(want[i + 1] == manifest_line(self.manifest@[i as int]));
            }
            lines.push(line);
            i = i + 1;
        }
        proof {
            assert(lines.deep_view() =~= want);
        }
        match csv_encode(&lines) {
            Ok(bytes) => Ok(bytes),
            Err(message) => Err(Error::Csv(message)),
        }
    }

    /// What the export did: its folder, how many pictures were copied, and the
    /// failures.
    pub fn finish(self) -> (r: ExportSummary)
        ensures
            r.export_dir == self.export_dir,
            r.copied == self.copied,
            r.failed == self.failed,
    {
        ExportSummary { export_dir: self.export_dir, copied: self.copied, failed: self.failed }
    }
}

} // verus!
