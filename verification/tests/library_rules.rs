use image_chooser::export::{
    after_create_attempt, backup_path_for, export_dir_candidates, export_dir_name, export_filename,
    manifest_path, CreateOutcome, DirStep,
};
use image_chooser::import::{date_time_text, exif_capture_time, ordering_from_file, ordering_metadata};
use image_chooser::paths::{file_name_of, has_parent, is_hidden, is_supported_image, join_path, with_extension_of};
use image_chooser::report::{
    export_report_lines, export_start_line, export_warning_lines, failure_line, import_report_lines,
    status_count_lines,
};
use image_chooser::session::{
    choice_status_text, counts_text, queue_text, shortcut_for_key, ChoiceAction, ChooserState, Effect, KeyCommand,
    KeyboardShortcut, LoadState, Screen, SelectionQueue,
};
use image_chooser::{
    default_project_path, resolve_project_path, usage, Error, ExportFailure, ExportSummary, ImageChoice,
    ImageStatus, ImportScan, ImportSummary, OrderingMetadata, Project, StatusCounts, StoredRow,
};
use image_chooser::image::image_from_row;
use image_chooser::clock::{backup_stamp_format, export_stamp_format, rfc3339_of_reading, utc_now};
use image_chooser::cli::project_file_in;
use image_chooser::import::ScanStage;

fn project_with(paths: &[&str]) -> Project {
    let mut project = Project::new(String::from("/data/project.sqlite"));
    let mut scan = ImportScan::new();
    for (i, path) in paths.iter().enumerate() {
        assert!(scan.record_file(path));
        assert!(scan.record_supported(&project, path));
        scan.add_candidate(ordering_metadata(None, Some(1_000 + i as i64)));
    }
    project.import_scan_at(scan, "2024-01-01T00:00:00Z").expect("import");
    project
}

fn row(id: i64, path: &str, status: &str, position: i64) -> StoredRow {
    StoredRow {
        id,
        path: path.to_string(),
        status: status.to_string(),
        position,
        ordering_timestamp: None,
        ordering_source: String::from("path"),
        last_error: None,
        created_at: String::from("2024-01-01T00:00:00Z"),
        updated_at: String::from("2024-01-01T00:00:00Z"),
    }
}

fn choice(row: StoredRow) -> ImageChoice {
    image_from_row(row).expect("valid row")
}

#[test]
fn status_words_round_trip_and_unknown_words_are_refused() {
    for status in [ImageStatus::Unseen, ImageStatus::Undecided, ImageStatus::Selected, ImageStatus::Rejected] {
        assert_eq!(ImageStatus::parse(status.as_str()), Ok(status));
    }
    assert_eq!(ImageStatus::Undecided.as_str(), "undecided");
    assert_eq!(ImageStatus::parse("maybe"), Err(Error::InvalidStatus(String::from("maybe"))));
    assert_eq!(
        image_from_row(row(1, "/p/a.jpg", "Selected", 1)),
        Err(Error::InvalidStatus(String::from("Selected")))
    );
}

#[test]
fn error_messages_name_the_failure() {
    assert_eq!(Error::InvalidStatus(String::from("x")).message(), "invalid image status in database: x");
    assert_eq!(Error::PathHasNoFileName(String::from("/")).message(), "path has no filename: /");
    assert_eq!(Error::NoUserDataDir.message(), "could not determine the user data directory");
    assert_eq!(Error::Io(String::from("denied")).message(), "io error: denied");
    assert_eq!(failure_line(&Error::Database(String::from("locked"))), "Fehler: database error: locked");
}

#[test]
fn counts_add_up_to_the_number_of_pictures() {
    let mut project = project_with(&["/p/a.jpg", "/p/b.jpg", "/p/c.jpg", "/p/d.jpg"]);
    let images = project.images_by_position().expect("list");
    project.set_status_at(images[0].id, ImageStatus::Selected, "t1");
    project.set_status_at(images[1].id, ImageStatus::Rejected, "t1");
    project.set_status_at(images[2].id, ImageStatus::Undecided, "t1");
    let counts = project.status_counts().expect("counts");
    assert_eq!(counts, StatusCounts { unseen: 1, undecided: 1, selected: 1, rejected: 1 });
    assert_eq!(counts.total(), project.image_count().expect("count"));
    assert_eq!(StatusCounts::default().total(), 0);
}

#[test]
fn the_queue_shows_the_lowest_position_first() {
    let project = Project::from_rows(
        String::from("/data/project.sqlite"),
        vec![
            choice(row(7, "/p/x.jpg", "rejected", 1)),
            choice(row(3, "/p/y.jpg", "unseen", 4)),
            choice(row(9, "/p/z.jpg", "unseen", 6)),
        ],
    )
    .expect("rows in position order");
    assert_eq!(project.next_unseen().expect("query").expect("some").id, 3);
    assert_eq!(project.next_unseen_after(Some(4)).expect("query").expect("some").id, 9);
    assert!(project.next_undecided_after(None).expect("query").is_none());
}

#[test]
fn rows_out_of_position_order_are_refused() {
    let result = Project::from_rows(
        String::from("/data/project.sqlite"),
        vec![choice(row(1, "/p/a.jpg", "unseen", 5)), choice(row(2, "/p/b.jpg", "unseen", 2))],
    );
    assert!(matches!(result, Err(Error::Database(_))));
}

#[test]
fn a_recorded_status_reads_back_and_touches_no_other_picture() {
    let mut project = project_with(&["/p/a.jpg", "/p/b.jpg"]);
    let images = project.images_by_position().expect("list");
    project.set_status_at(images[1].id, ImageStatus::Selected, "2024-02-02T10:00:00Z");
    let b = project.image_by_id(images[1].id).expect("query").expect("some");
    assert_eq!(b.status, ImageStatus::Selected);
    assert_eq!(b.updated_at, "2024-02-02T10:00:00Z");
    assert_eq!(b.position, images[1].position);
    assert_eq!(project.image_by_id(images[0].id).expect("query").expect("some"), images[0]);
    assert!(project.image_by_id(999).expect("query").is_none());

    project.set_status(images[0].id, ImageStatus::Rejected).expect("write");
    let a = project.image_by_id(images[0].id).expect("query").expect("some");
    assert_eq!(a.status, ImageStatus::Rejected);
    assert_eq!(a.updated_at.len(), "2024-02-02T10:00:00Z".len());
    assert!(a.updated_at.ends_with('Z'));
}

#[test]
fn stored_errors_are_kept_and_cleared() {
    let mut project = project_with(&["/p/a.jpg"]);
    let id = project.images_by_position().expect("list")[0].id;
    project.store_last_error_at(id, "decode failed", "t2");
    assert_eq!(project.image_by_id(id).unwrap().unwrap().last_error.as_deref(), Some("decode failed"));
    project.clear_last_error_at(id, "t3");
    assert_eq!(project.image_by_id(id).unwrap().unwrap().last_error, None);
}

#[test]
fn undo_restores_the_previous_decision() {
    let project = project_with(&["/p/a.jpg", "/p/b.jpg"]);
    let (mut state, effect) = ChooserState::with_project(project, "/data/project.sqlite");
    let first = state.current.clone().expect("a picture is shown");
    assert_eq!(first.path, "/p/a.jpg");
    assert_eq!(effect, Effect::LoadImage { image_id: first.id, path: first.path.clone() });
    assert_eq!(state.screen(), Screen::Selection);
    assert!(!state.can_undo());

    state.apply_choice(ChoiceAction::Select, "t1", Ok(()));
    assert_eq!(state.status, "Gespeichert: Ja, drucken.");
    assert_eq!(state.current.as_ref().expect("next picture").path, "/p/b.jpg");
    assert_eq!(state.counts, StatusCounts { unseen: 1, undecided: 0, selected: 1, rejected: 0 });
    assert!(state.can_undo());

    let effect = state.undo_last_choice("t2", Ok(()));
    assert_eq!(state.status, "Rückgängig gemacht.");
    let shown = state.current.clone().expect("undone picture is shown again");
    assert_eq!(shown.id, first.id);
    assert_eq!(shown.status, ImageStatus::Unseen);
    assert_eq!(effect, Effect::LoadImage { image_id: first.id, path: first.path.clone() });
    assert_eq!(state.counts, StatusCounts { unseen: 2, undecided: 0, selected: 0, rejected: 0 });
    assert!(!state.can_undo());
}

#[test]
fn review_later_walks_the_postponed_pictures_in_order() {
    let project = project_with(&["/p/a.jpg", "/p/b.jpg", "/p/c.jpg"]);
    let (mut state, _) = ChooserState::with_project(project, "/data/project.sqlite");
    state.apply_choice(ChoiceAction::Later, "t1", Ok(()));
    state.apply_choice(ChoiceAction::Reject, "t1", Ok(()));
    state.apply_choice(ChoiceAction::Later, "t1", Ok(()));
    assert_eq!(state.screen(), Screen::Completion);
    assert!(state.offers_review_later());

    state.start_review_later();
    assert_eq!(state.queue, SelectionQueue::ReviewLater);
    assert_eq!(state.current.as_ref().expect("first postponed").path, "/p/a.jpg");
    state.apply_choice(ChoiceAction::Later, "t2", Ok(()));
    assert_eq!(state.current.as_ref().expect("second postponed").path, "/p/c.jpg");
    state.apply_choice(ChoiceAction::Select, "t2", Ok(()));
    assert!(state.current.is_none());
    assert!(state.offers_exit_review());

    state.exit_review_later();
    assert_eq!(state.queue, SelectionQueue::MainUnseen);
    assert_eq!(state.status, "Zurück zur normalen Auswahl.");
}

#[test]
fn failed_writes_leave_the_chooser_unchanged() {
    let project = project_with(&["/p/a.jpg"]);
    let (mut state, _) = ChooserState::with_project(project, "/data/project.sqlite");
    let effect = state.apply_choice(ChoiceAction::Reject, "t1", Err(Error::Database(String::from("locked"))));
    assert_eq!(effect, Effect::Nothing);
    assert_eq!(state.status, "Auswahl konnte nicht gespeichert werden: database error: locked");
    assert!(!state.can_undo());
    assert_eq!(state.current.as_ref().unwrap().status, ImageStatus::Unseen);
}

#[test]
fn keyboard_shortcuts_map_to_choices() {
    let mut state = ChooserState::new(String::new());
    assert_eq!(state.screen(), Screen::Setup);
    assert_eq!(
        state.apply_keyboard_shortcut(KeyboardShortcut::Select),
        Some(KeyCommand::Choose(ChoiceAction::Select))
    );
    assert_eq!(state.apply_keyboard_shortcut(KeyboardShortcut::Undo), Some(KeyCommand::Undo));
    assert_eq!(state.apply_keyboard_shortcut(KeyboardShortcut::Escape), None);
    assert_eq!(shortcut_for_key("Y"), Some(KeyboardShortcut::Select));
    assert_eq!(shortcut_for_key("n"), Some(KeyboardShortcut::Reject));
    assert_eq!(shortcut_for_key("L"), Some(KeyboardShortcut::Later));
    assert_eq!(shortcut_for_key("u"), Some(KeyboardShortcut::Undo));
    assert_eq!(shortcut_for_key("x"), None);
    assert_eq!(shortcut_for_key("yy"), None);
}

#[test]
fn image_load_results_are_stored_with_the_picture() {
    let project = project_with(&["/p/a.jpg"]);
    let (mut state, _) = ChooserState::with_project(project, "/data/project.sqlite");
    let id = state.current.as_ref().unwrap().id;
    let failure: Result<(), String> = Err(String::from("unsupported format"));
    let write = state.image_load_write(id, &failure, "t5").expect("write for the shown picture");
    assert_eq!(write.message.as_deref(), Some("unsupported format"));
    assert_eq!(write.now, "t5");
    assert!(state.image_load_write(id + 1, &failure, "t5").is_none());
    state.finish_image_load(id, failure, "t5", Ok(()));
    assert_eq!(state.load_state, LoadState::Failed { message: String::from("unsupported format") });
    let stored = state.project.as_ref().unwrap().image_by_id(id).unwrap().unwrap();
    assert_eq!(stored.last_error.as_deref(), Some("unsupported format"));
}

#[test]
fn window_texts() {
    let counts = StatusCounts { unseen: 3, undecided: 1, selected: 12, rejected: 0 };
    assert_eq!(counts_text(counts), "Neu: 3 · Ausgewählt: 12 · Später: 1 · Abgelehnt: 0");
    assert_eq!(queue_text(SelectionQueue::ReviewLater), "Später ansehen");
    assert_eq!(choice_status_text(ChoiceAction::Reject), "Gespeichert: Nein, nicht drucken.");
}

#[test]
fn export_file_names_are_numbered_and_distinct() {
    assert_eq!(export_filename(1, "/p/one/IMG_0001.jpg"), Ok(String::from("000001_IMG_0001.jpg")));
    assert_eq!(export_filename(42, "/p/two/IMG_0001.jpg"), Ok(String::from("000042_IMG_0001.jpg")));
    assert_eq!(export_filename(1234567, "b.png"), Ok(String::from("1234567_b.png")));
    assert_ne!(export_filename(1, "/p/a.jpg"), export_filename(2, "/q/a.jpg"));
    assert_eq!(export_filename(3, "/"), Err(Error::PathHasNoFileName(String::from("/"))));
}

#[test]
fn export_folders_and_backups_are_named_by_time() {
    assert_eq!(export_dir_name("20240101-120000", 0), "image-chooser-export-20240101-120000");
    assert_eq!(export_dir_name("20240101-120000", 7), "image-chooser-export-20240101-120000-007");
    let candidates = export_dir_candidates("/exports", "20240101-120000");
    assert_eq!(candidates.len(), 1000);
    assert_eq!(candidates[0], "/exports/image-chooser-export-20240101-120000");
    assert_eq!(candidates[999], "/exports/image-chooser-export-20240101-120000-999");
    assert_eq!(export_stamp_format(), "%Y%m%d-%H%M%S");
    assert_eq!(backup_stamp_format(), "%Y%m%d-%H%M%S%.3f");
    assert_eq!(manifest_path("/exports/e"), "/exports/e/manifest.csv");
    assert_eq!(
        backup_path_for("/data/project.sqlite", "20240101-120000.123"),
        "/data/project.sqlite.bak-20240101-120000.123"
    );
}

#[test]
fn supported_and_hidden_files() {
    assert!(is_supported_image("/p/a.JPG"));
    assert!(is_supported_image("/p/a.jpeg"));
    assert!(is_supported_image("/p/a.png"));
    assert!(!is_supported_image("/p/a.heic"));
    assert!(!is_supported_image("/p/notes"));
    assert!(!is_supported_image("/p/.png"));
    assert!(is_hidden(Some(".git")));
    assert!(!is_hidden(Some("photos")));
    assert!(!is_hidden(None));
    assert_eq!(file_name_of("/p/q/a.jpg"), Some(String::from("a.jpg")));
    assert_eq!(file_name_of("/"), None);
    assert_eq!(join_path("/p", "a.jpg"), "/p/a.jpg");
    assert_eq!(with_extension_of("/p/a.sqlite", "sqlite.bak-1"), "/p/a.sqlite.bak-1");
}

#[test]
fn ordering_prefers_exif_then_mtime_then_path() {
    let exif = ordering_metadata(Some("2010:01:02 03:04:05"), Some(0));
    assert_eq!(exif.timestamp.as_deref(), Some("2010-01-02T03:04:05Z"));
    assert_eq!(exif.source, "exif");
    let mtime = ordering_metadata(Some("2010:13:02 03:04:05"), Some(0));
    assert_eq!(mtime.timestamp.as_deref(), Some("1970-01-01T00:00:00Z"));
    assert_eq!(mtime.source, "mtime");
    let path: OrderingMetadata = ordering_from_file(b"no exif here", None);
    assert_eq!(path.timestamp, None);
    assert_eq!(path.source, "path");
    assert_eq!(exif_capture_time("2010:01:02 03:04"), None);
    assert_eq!(exif_capture_time("2023:12:31 23:59:59"), Some(String::from("2023-12-31T23:59:59Z")));
    assert_eq!(date_time_text(Some(vec![b"2010:01:02 03:04:05".to_vec()])), Some(String::from("2010:01:02 03:04:05")));
    assert_eq!(date_time_text(Some(vec![vec![0xc3, 0xa4]])), None);
    assert_eq!(date_time_text(Some(Vec::new())), None);
}

#[test]
fn cli_reports() {
    let summary = ImportSummary { scanned: 3, imported: 2, duplicates: 0, unsupported: 1, walk_errors: 0 };
    let lines = import_report_lines(&summary);
    assert_eq!(lines[0], "Import abgeschlossen:");
    assert_eq!(lines[2], "  neu importiert: 2");
    assert_eq!(lines[4], "  übersprungen/unsupported: 1");
    let counts = StatusCounts { unseen: 1, undecided: 2, selected: 0, rejected: 4 };
    let status = status_count_lines(counts);
    assert_eq!(status[1], "  gesamt: 7");
    assert_eq!(export_warning_lines(counts).len(), 2);
    assert_eq!(export_start_line(counts), "Exportiere 0 ausgewählte Bilder …");
    let export = ExportSummary {
        export_dir: String::from("/e/x"),
        copied: 1,
        failed: vec![ExportFailure {
            original_path: String::from("/p/a.jpg"),
            destination_path: String::from("/e/x/000001_a.jpg"),
            message: String::from("gone"),
        }],
    };
    let lines = export_report_lines(&export);
    assert_eq!(lines[2], "  Manifest: /e/x/manifest.csv");
    assert_eq!(lines[5], "  FEHLER: /p/a.jpg -> /e/x/000001_a.jpg: gone");
    assert!(usage().contains("image-chooser import [project.sqlite] <photo-folder>"));
}

#[test]
fn project_paths_default_to_the_user_data_folder() {
    assert_eq!(resolve_project_path(Some(String::from("family.sqlite"))), Ok(String::from("family.sqlite")));
    match default_project_path() {
        Ok(path) => assert!(path.ends_with("/image-chooser/project.sqlite")),
        Err(error) => assert_eq!(error, Error::NoUserDataDir),
    }
}

#[test]
fn clock_readings_become_rfc3339_text() {
    assert_eq!(rfc3339_of_reading(Ok((946_684_800, 0))), Some(String::from("2000-01-01T00:00:00Z")));
    assert_eq!(rfc3339_of_reading(Err((1, 500_000_000))), Some(String::from("1969-12-31T23:59:58Z")));
    assert_eq!(rfc3339_of_reading(Err((1, 0))), Some(String::from("1969-12-31T23:59:59Z")));
    assert_eq!(rfc3339_of_reading(Ok((u64::MAX, 0))), None);
    let now = utc_now().expect("the clock reads a date");
    assert_eq!(now.len(), "2000-01-01T00:00:00Z".len());
    assert!(now.ends_with('Z'));
}

#[test]
fn the_first_free_export_folder_is_taken() {
    let candidates = export_dir_candidates("/exports", "20240101-120000");
    assert_eq!(
        after_create_attempt(&candidates, 0, CreateOutcome::Created),
        DirStep::Use(String::from("/exports/image-chooser-export-20240101-120000"))
    );
    assert_eq!(after_create_attempt(&candidates, 0, CreateOutcome::AlreadyExists), DirStep::TryNext);
    assert_eq!(
        after_create_attempt(&candidates, 999, CreateOutcome::AlreadyExists),
        DirStep::Stop(Error::Io(String::from("could not create a unique timestamped export directory")))
    );
    assert_eq!(
        after_create_attempt(&candidates, 3, CreateOutcome::Failed(String::from("Permission denied (os error 13)"))),
        DirStep::Stop(Error::Io(String::from("Permission denied (os error 13)")))
    );
}

#[test]
fn project_paths_need_a_parent_folder() {
    assert!(has_parent("family.sqlite"));
    assert!(has_parent("/data/project.sqlite"));
    assert!(has_parent("/a"));
    assert!(has_parent("."));
    assert!(!has_parent(""));
    assert!(!has_parent("/"));
    assert!(!has_parent("//./"));
    assert!(has_parent("/.a"));
}

#[test]
fn the_default_project_lives_in_the_data_folder() {
    assert_eq!(project_file_in("/home/ana/.local/share"), "/home/ana/.local/share/image-chooser/project.sqlite");
    assert_eq!(project_file_in("/data/"), "/data/image-chooser/project.sqlite");
}

#[test]
fn scrolling_opens_and_leaves_the_zoom_view() {
    let project = project_with(&["/p/a.jpg"]);
    let (mut state, _) = ChooserState::with_project(project, "/data/project.sqlite");
    state.scroll_zoom(true);
    assert_eq!(state.screen(), Screen::Zoom);
    assert_eq!(state.apply_keyboard_shortcut(KeyboardShortcut::Select), None);
    state.scroll_zoom(false);
    assert_eq!(state.screen(), Screen::Selection);
    let mut empty = ChooserState::new(String::new());
    empty.scroll_zoom(true);
    assert_eq!(empty.screen(), Screen::Setup);
}

#[test]
fn writes_carry_the_time_they_are_given() {
    let project = project_with(&["/p/a.jpg"]);
    let (mut state, _) = ChooserState::with_project(project, "/data/project.sqlite");
    let write = state.choice_write(ChoiceAction::Later, "2024-03-03T08:00:00Z").expect("a picture is shown");
    assert_eq!(write.now, "2024-03-03T08:00:00Z");
    assert_eq!(write.status, ImageStatus::Undecided);
    state.apply_choice(ChoiceAction::Later, &write.now, Ok(()));
    let undo = state.undo_write("2024-03-03T08:00:01Z").expect("something to undo");
    assert_eq!(undo.status, ImageStatus::Unseen);
    assert_eq!(undo.now, "2024-03-03T08:00:01Z");
}

#[test]
fn an_import_counts_every_file_once() {
    let mut project = project_with(&["/p/a.jpg"]);
    let mut scan = ImportScan::new();
    for path in ["/p/a.jpg", "/p/b.jpg", "/p/notes.txt", "/p/c.png"] {
        if scan.record_file(path) && scan.record_supported(&project, path) {
            scan.add_candidate(ordering_metadata(None, None));
        }
    }
    assert_eq!(scan.stage, ScanStage::Idle);
    let summary = project.import_scan(scan).expect("import");
    assert_eq!(summary.scanned, summary.imported + summary.duplicates + summary.unsupported);
    assert_eq!((summary.imported, summary.duplicates, summary.unsupported), (2, 1, 1));
    assert_eq!(project.image_count(), Ok(3));
}

#[test]
fn an_import_scan_counts_what_it_finds() {
    let project = project_with(&["/p/a.jpg"]);
    let mut scan = ImportScan::new();
    scan.record_walk_error();
    assert!(!scan.record_file("/p/readme.md"));
    assert!(scan.record_file("/p/a.jpg"));
    assert!(!scan.record_supported(&project, "/p/a.jpg"));
    assert!(scan.record_file("/p/b.png"));
    assert!(!scan.record_supported(&project, "/p/b.dat"));
    assert!(scan.record_file("/p/b.png"));
    assert!(scan.record_supported(&project, "/p/b.png"));
    assert_eq!(scan.stage, ScanStage::New { canonical_path: String::from("/p/b.png") });
    assert_eq!(
        scan.summary,
        ImportSummary { scanned: 4, imported: 0, duplicates: 1, unsupported: 2, walk_errors: 1 }
    );
}
