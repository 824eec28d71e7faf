//! Core of the image chooser: the image table of a project, the queues that
//! decide which picture is shown next, import ordering, export naming and the
//! command-line grammar.

pub mod text;
pub mod paths;
pub mod error;
pub mod status;
pub mod image;
pub mod clock;
pub mod project;
pub mod import;
pub mod order;
pub mod export;
pub mod cli;
pub mod report;
pub mod session;
pub mod laws;

pub use cli::{default_project_path, resolve_project_path, usage, CliCommand};
pub use error::Error;
pub use export::{ExportFailure, ExportRun, ExportSummary};
pub use image::{ImageChoice, StoredRow};
pub use import::{ImportScan, ImportSummary, NewImage, OrderingMetadata};
pub use project::Project;
pub use status::{ImageStatus, StatusCounts};

