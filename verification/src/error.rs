//! Errors of the image chooser.

use vstd::prelude::*;
use crate::text::push_str;

verus! {

/// What can go wrong in a project. The payloads are the messages of the
/// underlying failure, or the path or text that was refused.
#[derive(Debug, Clone, PartialEq, Eq)]
pub enum Error {
    Database(String),
    Migration(String),
    Io(String),
    Csv(String),
    ProjectPathHasNoParent(String),
    InvalidStatus(String),
    NoUserDataDir,
    PathHasNoFileName(String),
}

/// The text shown to the user for an error.
pub open spec fn error_message(e: Error) -> Seq<char> {
    match e {
        Error::Database(m) => "database error: "@ + m@,
        Error::Migration(m) => "migration error: "@ + m@,
        Error::Io(m) => "io error: "@ + m@,
        Error::Csv(m) => "csv error: "@ + m@,
        Error::ProjectPathHasNoParent(p) => "project path has no parent directory: "@ + p@,
        Error::InvalidStatus(s) => "invalid image status in database: "@ + s@,
        Error::NoUserDataDir => "could not determine the user data directory"@,
        Error::PathHasNoFileName(p) => "path has no filename: "@ + p@,
    }
}

impl Error {
    /// The text shown to the user for this error.
    pub fn message(&self) -> (r: String)
        ensures
            r@ == error_message(*self),
    {
        let mut out = String::new();
        match self {
            Error::Database(m) => {
                push_str(&mut out, "database error: ");
                push_str(&mut out, m.as_str());
            },
            Error::Migration(m) => {
                push_str(&mut out, "migration error: ");
                push_str(&mut out, m.as_str());
            },
            Error::Io(m) => {
                push_str(&mut out, "io error: ");
                push_str(&mut out, m.as_str());
            },
            Error::Csv(m) => {
                push_str(&mut out, "csv error: ");
                push_str(&mut out, m.as_str());
            },
            Error::ProjectPathHasNoParent(p) => {
                push_str(&mut out, "project path has no parent directory: ");
                push_str(&mut out, p.as_str());
            },
            Error::InvalidStatus(s) => {
                push_str(&mut out, "invalid image status in database: ");
                push_str(&mut out, s.as_str());
            },
            Error::NoUserDataDir => {
                push_str(&mut out, "could not determine the user data directory");
            },
            Error::PathHasNoFileName(p) => {
                push_str(&mut out, "path has no filename: ");
                push_str(&mut out, p.as_str());
            },
        }
        assert(out@ == error_message(*self));
        out
    }
}

} // verus!
