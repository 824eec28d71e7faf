//! The command line of the image chooser: its grammar, its usage text and
//! the project file it opens.

use vstd::prelude::*;
use crate::error::Error;
use crate::paths::{join, join_path};
use crate::text::{chars_of, push_str, str_eq, string_of};

verus! {

/// A command given on the command line.
#[derive(Debug, Clone, PartialEq, Eq)]
pub enum CliCommand {
    Gui { project: Option<String> },
    Init { project: Option<String> },
    Import { project: Option<String>, folder: String },
    Export { project: Option<String>, target_folder: String },
    Stats { project: Option<String> },
    Help,
}

/// The content of a `CliCommand`.
pub enum CommandView {
    Gui { project: Option<Seq<char>> },
    Init { project: Option<Seq<char>> },
    Import { project: Option<Seq<char>>, folder: Seq<char> },
    Export { project: Option<Seq<char>>, target_folder: Seq<char> },
    Stats { project: Option<Seq<char>> },
    Help,
}

/// The characters of an optional text.
pub open spec fn opt_chars(o: Option<String>) -> Option<Seq<char>> {
    match o {
        Some(s) => Some(s@),
        None => None,
    }
}

impl View for CliCommand {
    type V = CommandView;

    open spec fn view(&self) -> CommandView {
        match self {
            CliCommand::Gui { project } => CommandView::Gui { project: opt_chars(*project) },
            CliCommand::Init { project } => CommandView::Init { project: opt_chars(*project) },
            CliCommand::Import { project, folder } => CommandView::Import {
                project: opt_chars(*project),
                folder: folder@,
            },
            CliCommand::Export { project, target_folder } => CommandView::Export {
                project: opt_chars(*project),
                target_folder: target_folder@,
            },
            CliCommand::Stats { project } => CommandView::Stats { project: opt_chars(*project) },
            CliCommand::Help => CommandView::Help,
        }
    }
}

/// The command a list of arguments (without the program name) stands for,
/// or the message that explains why it stands for none. No arguments start
/// the GUI on the default project. `import` and `export` take the folder as
/// their last argument and an optional project before it; `gui`, `init`
/// and `stats` take an optional project.
pub open spec fn parse_spec(args: Seq<Seq<char>>) -> Result<CommandView, Seq<char>> {
    if args.len() == 0 {
        Ok(CommandView::Gui { project: None })
    } else {
        let c = args[0];
        let n = args.len();
        if c == "gui"@ {
            if n == 1 {
                Ok(CommandView::Gui { project: None })
            } else if n == 2 {
                Ok(CommandView::Gui { project: Some(args[1]) })
            } else {
                Err("Aufruf: image-chooser gui [project.sqlite]"@)
            }
        } else if c == "init"@ {
            if n == 1 {
                Ok(CommandView::Init { project: None })
            } else if n == 2 {
                Ok(CommandView::Init { project: Some(args[1]) })
            } else {
                Err("Aufruf: image-chooser init [project.sqlite]"@)
            }
        } else if c == "import"@ {
            if n == 2 {
                Ok(CommandView::Import { project: None, folder: args[1] })
            } else if n == 3 {
                Ok(CommandView::Import { project: Some(args[1]), folder: args[2] })
            } else {
                Err("Aufruf: image-chooser import [project.sqlite] <photo-folder>"@)
            }
        } else if c == "export"@ {
            if n == 2 {
                Ok(CommandView::Export { project: None, target_folder: args[1] })
            } else if n == 3 {
                Ok(CommandView::Export { project: Some(args[1]), target_folder: args[2] })
            } else {
                Err("Aufruf: image-chooser export [project.sqlite] <target-folder>"@)
            }
        } else if c == "stats"@ {
            if n == 1 {
                Ok(CommandView::Stats { project: None })
            } else if n == 2 {
                Ok(CommandView::Stats { project: Some(args[1]) })
            } else {
                Err("Aufruf: image-chooser stats [project.sqlite]"@)
            }
        } else if c == "help"@ || c == "--help"@ || c == "-h"@ {
            Ok(CommandView::Help)
        } else {
            Err("Unbekannter Befehl: "@ + c)
        }
    }
}

/// The characters of each argument.
pub open spec fn arg_views(args: Seq<String>) -> Seq<Seq<char>> {
    args.map_values(|a: String| a@)
}

fn copy_string(s: &String) -> (r: String)
    ensures
        r@ == s@,
{
    s.clone()
}

fn literal(s: &str) -> (r: String)
    ensures
        r@ == s@,
{
    string_of(&chars_of(s))
}

impl CliCommand {
    /// Reads the command line arguments (without the program name).
    pub fn parse(args: Vec<String>) -> (r: Result<CliCommand, String>)
        ensures
            match (r, parse_spec(arg_views(args@))) {
                (Ok(c), Ok(v)) => c@ == v,
                (Err(m), Err(w)) => m@ == w,
                _ => false,
            },
    {
        let ghost a = arg_views(args@);
        let n = args.len();
        if n == 0 {
            return Ok(CliCommand::Gui { project: None });
        }
        assert(a[0] == args@[0]@);
        let c = args[0].as_str();
        if str_eq(c, "gui") {
            if n == 1 {
                Ok(CliCommand::Gui { project: None })
            } else if n == 2 {
                assert(a[1] == args@[1]@);
                Ok(CliCommand::Gui { project: Some(copy_string(&args[1])) })
            } else {
                Err(literal("Aufruf: image-chooser gui [project.sqlite]"))
            }
        } else if str_eq(c, "init") {
            if n == 1 {
                Ok(CliCommand::Init { project: None })
            } else if n == 2 {
                assert(a[1] == args@[1]@);
                Ok(CliCommand::Init { project: Some(copy_string(&args[1])) })
            } else {
                Err(literal("Aufruf: image-chooser init [project.sqlite]"))
            }
        } else if str_eq(c, "import") {
            if n == 2 {
                assert(a[1] == args@[1]@);
                Ok(CliCommand::Import { project: None, folder: copy_string(&args[1]) })
            } else if n == 3 {
                assert(a[1] == args@[1]@);
                assert(a[2] == args@[2]@);
                Ok(
                    CliCommand::Import {
                        project: Some(copy_string(&args[1])),
                        folder: copy_string(&args[2]),
                    },
                )
            } else {
                Err(literal("Aufruf: image-chooser import [project.sqlite] <photo-folder>"))
            }
        } else if str_eq(c, "export") {
            if n == 2 {
                assert(a[1] == args@[1]@);
                Ok(CliCommand::Export { project: None, target_folder: copy_string(&args[1]) })
            } else if n == 3 {
                assert(a[1] == args@[1]@);
                assert(a[2] == args@[2]@);
                Ok(
                    CliCommand::Export {
                        project: Some(copy_string(&args[1])),
                        target_folder: copy_string(&args[2]),
                    },
                )
            } else {
                Err(literal("Aufruf: image-chooser export [project.sqlite] <target-folder>"))
            }
        } else if str_eq(c, "stats") {
            if n == 1 {
                Ok(CliCommand::Stats { project: None })
            } else if n == 2 {
                assert(a[1] == args@[1]@);
                Ok(CliCommand::Stats { project: Some(copy_string(&args[1])) })
            } else {
                Err(literal("Aufruf: image-chooser stats [project.sqlite]"))
            }
        } else if str_eq(c, "help") || str_eq(c, "--help") || str_eq(c, "-h") {
            Ok(CliCommand::Help)
        } else {
            let mut m = literal("Unbekannter Befehl: ");
            push_str(&mut m, c);
            Err(m)
        }
    }
}

/// The usage text of the command line.
pub fn usage() -> (r: &'static str)
    ensures
        r@ == "Benutzung:\n  image-chooser                              GUI mit Standardprojekt starten\n  image-chooser gui [project.sqlite]         GUI starten\n  image-chooser init [project.sqlite]        Projektdatei erstellen/öffnen\n  image-chooser import [project.sqlite] <photo-folder>\n  image-chooser stats [project.sqlite]\n  image-chooser export [project.sqlite] <target-folder>\n\nOhne project.sqlite wird das Standardprojekt im Benutzer-Datenordner verwendet.\n\nBeispiel:\n  image-chooser init\n  image-chooser import /pfad/zu/fotos\n  image-chooser gui"@,
{
    "Benutzung:\n  image-chooser                              GUI mit Standardprojekt starten\n  image-chooser gui [project.sqlite]         GUI starten\n  image-chooser init [project.sqlite]        Projektdatei erstellen/öffnen\n  image-chooser import [project.sqlite] <photo-folder>\n  image-chooser stats [project.sqlite]\n  image-chooser export [project.sqlite] <target-folder>\n\nOhne project.sqlite wird das Standardprojekt im Benutzer-Datenordner verwendet.\n\nBeispiel:\n  image-chooser init\n  image-chooser import /pfad/zu/fotos\n  image-chooser gui"
}

#[verifier::external_type_specification]
#[verifier::external_body]
pub struct ExBaseDirs(directories::BaseDirs);

/// The standard directories of the user (`directories::BaseDirs::new`);
/// `None` when no home directory can be found. Nothing is stated of the
/// result: it depends on the environment.
#[verifier::external_body]
fn base_dirs() -> Option<directories::BaseDirs> {
    directories::BaseDirs::new()
}

/// The local data directory of the user (`BaseDirs::data_local_dir`), as
/// text (`Path::to_str`); `None` when the directory is not valid UTF-8.
/// Nothing is stated of the result: it depends on the environment.
#[verifier::external_body]
fn data_local_dir(dirs: &directories::BaseDirs) -> Option<String> {
    dirs.data_local_dir().to_str().map(|dir| dir.to_owned())
}

/// The default project file inside a local data directory:
/// `image-chooser/project.sqlite`.
pub open spec fn default_project_in(data_dir: Seq<char>) -> Seq<char> {
    join(join(data_dir, "image-chooser"@), "project.sqlite"@)
}

/// The default project file inside the local data directory `data_dir`.
pub fn project_file_in(data_dir: &str) -> (r: String)
    ensures
        r@ == default_project_in(data_dir@),
{
    let app = join_path(data_dir, "image-chooser");
    join_path(app.as_str(), "project.sqlite")
}

/// The default project file of the user: `image-chooser/project.sqlite` in
/// the local data directory; `NoUserDataDir` when there is no such
/// directory or it is not valid UTF-8. Which directory that is depends on
/// the environment.
pub fn default_project_path() -> (r: Result<String, Error>)
    ensures
        match r {
            Ok(p) => exists|dir: Seq<char>| p@ == default_project_in(dir),
            Err(e) => e is NoUserDataDir,
        },
{
    match base_dirs() {
        Some(dirs) => match data_local_dir(&dirs) {
            Some(dir) => Ok(project_file_in(dir.as_str())),
            None => Err(Error::NoUserDataDir),
        },
        None => Err(Error::NoUserDataDir),
    }
}

/// The project file to open: the one given, or else the default project.
pub fn resolve_project_path(project: Option<String>) -> (r: Result<String, Error>)
    ensures
        match project {
            Some(p) => r matches Ok(q) && q@ == p@,
            None => match r {
                Ok(q) => exists|dir: Seq<char>| q@ == default_project_in(dir),
                Err(e) => e is NoUserDataDir,
            },
        },
{
    match project {
        Some(path) => Ok(path),
        None => default_project_path(),
    }
}

} // verus!
