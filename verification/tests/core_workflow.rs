use std::io::Cursor;

use exif::{experimental::Writer as ExifWriter, Field, In, Tag, Value};
use image_chooser::import::ordering_from_file;
use image_chooser::{ImageStatus, ImportScan, ImportSummary, Project};

const PLAIN_PHOTO: &[u8] = b"not a real jpeg, but enough for import/export core tests";

/// One file of a source folder: its canonical path, its bytes and its
/// modification time in seconds since the Unix epoch.
struct SourceFile {
    path: String,
    bytes: Vec<u8>,
    mtime: Option<i64>,
}

fn photo(path: &str, mtime: i64) -> SourceFile {
    SourceFile { path: path.to_string(), bytes: PLAIN_PHOTO.to_vec(), mtime: Some(mtime) }
}

fn jpeg_with_exif_datetime_original(datetime: &str) -> Vec<u8> {
    let field = Field {
        tag: Tag::DateTimeOriginal,
        ifd_num: In::PRIMARY,
        value: Value::Ascii(vec![datetime.as_bytes().to_vec()]),
    };
    let mut writer = ExifWriter::new();
    writer.push_field(&field);
    let mut exif_data = Cursor::new(Vec::new());
    writer.write(&mut exif_data, false).expect("encode test exif data");

    let mut app1_payload = b"Exif\0\0".to_vec();
    app1_payload.extend(exif_data.into_inner());
    let app1_len = app1_payload.len() + 2;
    assert!(app1_len <= u16::MAX as usize, "test APP1 segment fits");

    let mut jpeg = vec![0xff, 0xd8, 0xff, 0xe1];
    jpeg.extend((app1_len as u16).to_be_bytes());
    jpeg.extend(app1_payload);
    jpeg.extend([0xff, 0xd9]);
    jpeg
}

/// Imports the files of a folder the way the application walks it: every
/// file is counted, supported pictures are checked against the project and
/// new ones are ordered by their EXIF time or modification time.
fn import_folder(project: &mut Project, files: &[SourceFile]) -> ImportSummary {
    let mut scan = ImportScan::new();
    for file in files {
        if !scan.record_file(&file.path) {
            continue;
        }
        if scan.record_supported(project, &file.path) {
            scan.add_candidate(ordering_from_file(&file.bytes, file.mtime));
        }
    }
    assert!(project.can_import(&scan));
    project.import_scan(scan).expect("import source folder")
}

fn new_project() -> Project {
    Project::new(String::from("/tmp/chooser/project.sqlite"))
}

#[test]
fn import_reimport_and_queue_rules_preserve_decisions_and_stable_positions() {
    let mut project = new_project();
    let mut source = vec![
        photo("/tmp/chooser/source/b.jpg", 1_700_000_000),
        photo("/tmp/chooser/source/a.jpg", 1_700_000_000),
        SourceFile {
            path: String::from("/tmp/chooser/source/notes.txt"),
            bytes: b"ignore me".to_vec(),
            mtime: Some(1_700_000_000),
        },
    ];

    let summary = import_folder(&mut project, &source);

    assert_eq!(summary.imported, 2);
    assert_eq!(summary.unsupported, 1);
    let images = project.images_by_position().expect("list images");
    assert_eq!(images[0].filename(), "a.jpg");
    assert_eq!(images[0].position, 1);
    assert_eq!(images[1].filename(), "b.jpg");
    assert_eq!(images[1].position, 2);

    project.set_status(images[0].id, ImageStatus::Selected).expect("persist selected choice");
    let repeat = import_folder(&mut project, &source);
    assert_eq!(repeat.imported, 0);
    assert_eq!(repeat.duplicates, 2);
    let after_repeat = project.images_by_position().expect("list after reimport");
    assert_eq!(after_repeat[0].status, ImageStatus::Selected);
    assert_eq!(after_repeat[0].position, 1);

    source.push(photo("/tmp/chooser/source/c.jpg", 1_700_000_005));
    let append = import_folder(&mut project, &source);
    assert_eq!(append.imported, 1);
    let after_append = project.images_by_position().expect("list after append");
    assert_eq!(after_append[2].filename(), "c.jpg");
    assert_eq!(after_append[2].position, 3);

    let next = project.next_unseen().expect("query next unseen").expect("has unseen");
    assert_eq!(next.filename(), "b.jpg");

    project.set_status(next.id, ImageStatus::Undecided).expect("persist later choice");
    let next = project.next_unseen().expect("query next unseen").expect("has unseen");
    assert_eq!(next.filename(), "c.jpg");
}

#[test]
fn import_prefers_exif_capture_time_over_file_mtime_to_keep_camera_rolls_chronological() {
    let mut project = new_project();
    let source = vec![
        photo("/tmp/chooser/source/a_mtime_only.jpg", 1_577_836_800),
        SourceFile {
            path: String::from("/tmp/chooser/source/z_exif_photo.jpg"),
            bytes: jpeg_with_exif_datetime_original("2010:01:02 03:04:05"),
            mtime: Some(1_893_456_000),
        },
    ];

    import_folder(&mut project, &source);

    let images = project.images_by_position().expect("list images");
    assert_eq!(images[0].filename(), "z_exif_photo.jpg");
    assert_eq!(images[0].ordering_source, "exif");
    assert_eq!(images[0].ordering_timestamp.as_deref(), Some("2010-01-02T03:04:05Z"));
    assert_eq!(images[1].filename(), "a_mtime_only.jpg");
    assert_eq!(images[1].ordering_source, "mtime");
}

#[test]
fn import_uses_file_mtime_when_exif_capture_time_is_absent_to_keep_plain_images_ordered() {
    let mut project = new_project();
    let source = vec![photo("/tmp/chooser/source/plain.jpg", 946_684_800)];

    import_folder(&mut project, &source);

    let images = project.images_by_position().expect("list images");
    assert_eq!(images[0].filename(), "plain.jpg");
    assert_eq!(images[0].ordering_source, "mtime");
    assert_eq!(images[0].ordering_timestamp.as_deref(), Some("2000-01-01T00:00:00Z"));
}

#[test]
fn unseen_lookahead_query_skips_current_image_to_preload_the_next_choice() {
    let mut project = new_project();
    let source = vec![
        photo("/tmp/chooser/source/a.jpg", 1_700_000_000),
        photo("/tmp/chooser/source/b.jpg", 1_700_000_000),
        photo("/tmp/chooser/source/c.jpg", 1_700_000_000),
    ];
    import_folder(&mut project, &source);
    let images = project.images_by_position().expect("list images");
    project.set_status(images[1].id, ImageStatus::Rejected).expect("mark middle rejected");

    let next_after_first = project
        .next_unseen_after(Some(images[0].position))
        .expect("query next unseen after current")
        .expect("has next unseen");
    assert_eq!(next_after_first.filename(), "c.jpg");
    assert!(project
        .next_unseen_after(Some(next_after_first.position))
        .expect("query after final unseen")
        .is_none());
}

#[test]
fn later_review_query_advances_by_position_without_mixing_in_unseen_images() {
    let mut project = new_project();
    let source = vec![
        photo("/tmp/chooser/source/a.jpg", 1_700_000_000),
        photo("/tmp/chooser/source/b.jpg", 1_700_000_000),
        photo("/tmp/chooser/source/c.jpg", 1_700_000_000),
    ];
    import_folder(&mut project, &source);
    let images = project.images_by_position().expect("list images");
    project.set_status(images[0].id, ImageStatus::Undecided).expect("mark first later");
    project.set_status(images[2].id, ImageStatus::Undecided).expect("mark third later");

    let first_later = project
        .next_undecided_after(None)
        .expect("query first later")
        .expect("has first later");
    assert_eq!(first_later.filename(), "a.jpg");
    let second_later = project
        .next_undecided_after(Some(first_later.position))
        .expect("query second later")
        .expect("has second later");
    assert_eq!(second_later.filename(), "c.jpg");
    assert!(project
        .next_undecided_after(Some(second_later.position))
        .expect("query after last later")
        .is_none());
}

/// Runs an export the way the application does; `missing` lists the source
/// paths whose copy fails. Returns the summary, the destinations that were
/// written and the manifest text.
fn run_export(
    project: &mut Project,
    export_dir: &str,
    missing: &[&str],
) -> (image_chooser::ExportSummary, Vec<String>, String) {
    let mut run = project.begin_export(String::from(export_dir));
    let mut written = Vec::new();
    while let Some(job) = run.next_job() {
        let job = job.expect("selected picture has a file name");
        let outcome = if missing.contains(&job.source.as_str()) {
            Err(String::from("No such file or directory (os error 2)"))
        } else {
            written.push(job.destination.clone());
            Ok(())
        };
        run.record_copy(project, outcome, "2024-01-01T12:00:00Z");
    }
    let manifest = String::from_utf8(run.manifest_bytes().expect("write manifest")).expect("utf-8 manifest");
    (run.finish(), written, manifest)
}

#[test]
fn export_copies_only_selected_images_with_unique_names_and_manifest() {
    let mut project = new_project();
    let source = vec![
        photo("/tmp/chooser/source/one/IMG_0001.jpg", 1_700_000_000),
        photo("/tmp/chooser/source/two/IMG_0001.jpg", 1_700_000_001),
        photo("/tmp/chooser/source/three/IMG_0002.png", 1_700_000_002),
    ];
    import_folder(&mut project, &source);
    let images = project.images_by_position().expect("list images");

    for image in &images {
        let status = if image.filename() == "IMG_0001.jpg" {
            ImageStatus::Selected
        } else {
            ImageStatus::Rejected
        };
        project.set_status(image.id, status).expect("persist export test status");
    }

    let export_dir = "/tmp/chooser/exports/image-chooser-export-20240101-120000";
    let (summary, written, manifest) = run_export(&mut project, export_dir, &[]);

    assert_eq!(summary.copied, 2);
    assert_eq!(summary.failed.len(), 0);
    assert_eq!(summary.export_dir, export_dir);
    assert!(written.contains(&format!("{export_dir}/000001_IMG_0001.jpg")));
    assert!(written.contains(&format!("{export_dir}/000002_IMG_0001.jpg")));
    assert!(!written.contains(&format!("{export_dir}/000003_IMG_0002.png")));

    assert!(manifest.contains("exported_filename,original_path,status,position"));
    assert!(manifest.contains("000001_IMG_0001.jpg"));
    assert!(manifest.contains("000002_IMG_0001.jpg"));
    assert!(manifest.contains("selected"));
}

#[test]
fn export_continues_after_a_selected_file_cannot_be_copied() {
    let mut project = new_project();
    let source = vec![
        photo("/tmp/chooser/source/a.jpg", 1_700_000_000),
        photo("/tmp/chooser/source/b.jpg", 1_700_000_000),
    ];
    import_folder(&mut project, &source);
    let images = project.images_by_position().expect("list images");
    for image in &images {
        project.set_status(image.id, ImageStatus::Selected).expect("select image");
    }

    let export_dir = "/tmp/chooser/exports/image-chooser-export-20240101-120000";
    let (summary, written, _) = run_export(&mut project, export_dir, &[images[0].path.as_str()]);

    assert_eq!(summary.copied, 1);
    assert_eq!(summary.failed.len(), 1);
    assert!(written.contains(&format!("{export_dir}/000002_b.jpg")));
    let failed = project.image_by_id(images[0].id).expect("read failed picture").expect("still there");
    assert_eq!(failed.last_error.as_deref(), Some("No such file or directory (os error 2)"));
}
