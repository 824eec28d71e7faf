//! One picture of a project, as stored in the project file.

use vstd::prelude::*;
use crate::paths::{file_name, file_name_of};
use crate::error::Error;
use crate::status::ImageStatus;
use crate::text::{chars_of, string_of};

verus! {

/// A picture of the project together with its decision and ordering data.
#[derive(Debug, PartialEq, Eq)]
pub struct ImageChoice {
    pub id: i64,
    pub path: String,
    pub status: ImageStatus,
    pub position: i64,
    pub ordering_timestamp: Option<String>,
    pub ordering_source: String,
    pub last_error: Option<String>,
    pub created_at: String,
    pub updated_at: String,
}

/// The content of an `ImageChoice`, with texts as character sequences.
pub struct ImageRecord {
    pub id: int,
    pub path: Seq<char>,
    pub status: ImageStatus,
    pub position: int,
    pub ordering_timestamp: Option<Seq<char>>,
    pub ordering_source: Seq<char>,
    pub last_error: Option<Seq<char>>,
    pub created_at: Seq<char>,
    pub updated_at: Seq<char>,
}

/// The characters of an optional text.
pub open spec fn opt_view(o: Option<String>) -> Option<Seq<char>> {
    match o {
        Some(s) => Some(s@),
        None => None,
    }
}

pub(crate) fn clone_opt(o: &Option<String>) -> (r: Option<String>)
    ensures
        opt_view(r) == opt_view(*o),
{
    match o {
        Some(s) => Some(s.clone()),
        None => None,
    }
}

impl View for ImageChoice {
    type V = ImageRecord;

    open spec fn view(&self) -> ImageRecord {
        ImageRecord {
            id: self.id as int,
            path: self.path@,
            status: self.status,
            position: self.position as int,
            ordering_timestamp: opt_view(self.ordering_timestamp),
            ordering_source: self.ordering_source@,
            last_error: opt_view(self.last_error),
            created_at: self.created_at@,
            updated_at: self.updated_at@,
        }
    }
}

impl Clone for ImageChoice {
    fn clone(&self) -> (r: Self)
        ensures
            r@ == self@,
    {
        ImageChoice {
            id: self.id,
            path: self.path.clone(),
            status: self.status,
            position: self.position,
            ordering_timestamp: clone_opt(&self.ordering_timestamp),
            ordering_source: self.ordering_source.clone(),
            last_error: clone_opt(&self.last_error),
            created_at: self.created_at.clone(),
            updated_at: self.updated_at.clone(),
        }
    }
}

/// The name shown for a picture: the final component of its path, or the
/// whole path when it has none.
pub open spec fn display_name(path: Seq<char>) -> Seq<char> {
    match file_name(path) {
        Some(name) => name,
        None => path,
    }
}

impl ImageChoice {
    /// The name shown for this picture (the file name, or else the whole path).
    pub fn filename(&self) -> (r: String)
        ensures
            r@ == display_name(self.path@),
    {
        match file_name_of(self.path.as_str()) {
            Some(name) => name,
            None => string_of(&chars_of(self.path.as_str())),
        }
    }
}


/// A row of the project file as it is read, with the status still in its
/// textual form.
pub struct StoredRow {
    pub id: i64,
    pub path: String,
    pub status: String,
    pub position: i64,
    pub ordering_timestamp: Option<String>,
    pub ordering_source: String,
    pub last_error: Option<String>,
    pub created_at: String,
    pub updated_at: String,
}

/// Turns a stored row into a picture; a status word that is not one of the
/// four statuses is an `InvalidStatus` error carrying the word.
pub fn image_from_row(row: StoredRow) -> (r: Result<ImageChoice, Error>)
    ensures
        match r {
            Ok(c) => {
                &&& c.status.label() == row.status@
                &&& c.id == row.id
                &&& c.path@ == row.path@
                &&& c.position == row.position
                &&& opt_view(c.ordering_timestamp) == opt_view(row.ordering_timestamp)
                &&& c.ordering_source@ == row.ordering_source@
                &&& opt_view(c.last_error) == opt_view(row.last_error)
                &&& c.created_at@ == row.created_at@
                &&& c.updated_at@ == row.updated_at@
            },
            Err(e) => (e matches Error::InvalidStatus(m) && m@ == row.status@) && forall|
                s: ImageStatus,
            | s.label() != row.status@,
        },
{
    let status = ImageStatus::parse(row.status.as_str())?;
    Ok(
        ImageChoice {
            id: row.id,
            path: row.path,
            status,
            position: row.position,
            ordering_timestamp: row.ordering_timestamp,
            ordering_source: row.ordering_source,
            last_error: row.last_error,
            created_at: row.created_at,
            updated_at: row.updated_at,
        },
    )
}

} // verus!
