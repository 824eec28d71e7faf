use image_chooser::CliCommand;

fn args(items: &[&str]) -> Vec<String> {
    items.iter().map(|s| s.to_string()).collect()
}

#[test]
fn cli_parser_defaults_to_gui_so_nix_run_still_starts_the_app() {
    assert_eq!(
        CliCommand::parse(Vec::new()).expect("parse empty CLI"),
        CliCommand::Gui { project: None }
    );
}

#[test]
fn cli_parser_accepts_import_arguments_to_avoid_swapping_project_and_folder() {
    assert_eq!(
        CliCommand::parse(args(&["import", "family.sqlite", "photos"])).expect("parse import CLI"),
        CliCommand::Import {
            project: Some(String::from("family.sqlite")),
            folder: String::from("photos"),
        }
    );
}

#[test]
fn cli_parser_uses_default_project_for_one_argument_import() {
    assert_eq!(
        CliCommand::parse(args(&["import", "photos"])).expect("parse default-project import CLI"),
        CliCommand::Import {
            project: None,
            folder: String::from("photos"),
        }
    );
}

#[test]
fn cli_parser_accepts_export_arguments_to_make_cli_exports_available() {
    assert_eq!(
        CliCommand::parse(args(&["export", "family.sqlite", "exports"])).expect("parse export CLI"),
        CliCommand::Export {
            project: Some(String::from("family.sqlite")),
            target_folder: String::from("exports"),
        }
    );
}

#[test]
fn cli_parser_uses_default_project_for_one_argument_export() {
    assert_eq!(
        CliCommand::parse(args(&["export", "exports"])).expect("parse default-project export CLI"),
        CliCommand::Export {
            project: None,
            target_folder: String::from("exports"),
        }
    );
}

#[test]
fn cli_parser_rejects_incomplete_export_to_avoid_writing_to_the_wrong_folder() {
    assert!(CliCommand::parse(args(&["export"])).is_err());
}

#[test]
fn cli_parser_reports_usage_and_unknown_commands() {
    assert_eq!(
        CliCommand::parse(args(&["export"])),
        Err(String::from("Aufruf: image-chooser export [project.sqlite] <target-folder>"))
    );
    assert_eq!(
        CliCommand::parse(args(&["frobnicate"])),
        Err(String::from("Unbekannter Befehl: frobnicate"))
    );
    assert_eq!(CliCommand::parse(args(&["-h"])), Ok(CliCommand::Help));
    assert_eq!(
        CliCommand::parse(args(&["gui", "a.sqlite", "b"])),
        Err(String::from("Aufruf: image-chooser gui [project.sqlite]"))
    );
    assert_eq!(
        CliCommand::parse(args(&["stats", "p.sqlite"])),
        Ok(CliCommand::Stats { project: Some(String::from("p.sqlite")) })
    );
}
