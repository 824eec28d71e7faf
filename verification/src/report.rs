//! The lines the command line prints about a project, an import and an
//! export.

use vstd::prelude::*;
use crate::error::{error_message, Error};
use crate::export::ExportSummary;
use crate::import::ImportSummary;
use crate::paths::{join, join_path};
use crate::status::StatusCounts;
use crate::text::{chars_of, decimal, push_decimal, push_signed, push_str, signed_decimal, string_of};

verus! {

/// The characters of each line.
pub open spec fn line_views(v: Seq<String>) -> Seq<Seq<char>> {
    v.map_values(|s: String| s@)
}

fn text(s: &str) -> (r: String)
    ensures
        r@ == s@,
{
    string_of(&chars_of(s))
}

fn signed_line(prefix: &str, n: i64) -> (r: String)
    ensures
        r@ == prefix@ + signed_decimal(n as int),
{
    let mut s = text(prefix);
    push_signed(&mut s, n);
    s
}

fn count_line(prefix: &str, n: usize) -> (r: String)
    ensures
        r@ == prefix@ + decimal(n as nat),
{
    let mut s = text(prefix);
    push_decimal(&mut s, n as u64);
    s
}

fn text_line(prefix: &str, t: &str) -> (r: String)
    ensures
        r@ == prefix@ + t@,
{
    let mut s = text(prefix);
    push_str(&mut s, t);
    s
}

/// The status block: the total and the count of each status.
pub open spec fn status_lines_spec(c: StatusCounts) -> Seq<Seq<char>> {
    seq![
        "Status:"@,
        "  gesamt: "@ + signed_decimal(c.spec_total()),
        "  ungesehen: "@ + signed_decimal(c.unseen as int),
        "  später: "@ + signed_decimal(c.undecided as int),
        "  ausgewählt: "@ + signed_decimal(c.selected as int),
        "  abgelehnt: "@ + signed_decimal(c.rejected as int),
    ]
}

/// The lines that show the status counts of a project.
pub fn status_count_lines(counts: StatusCounts) -> (r: Vec<String>)
    requires
        i64::MIN <= counts.unseen + counts.undecided <= i64::MAX,
        i64::MIN <= counts.unseen + counts.undecided + counts.selected <= i64::MAX,
        i64::MIN <= counts.spec_total() <= i64::MAX,
    ensures
        line_views(r@) == status_lines_spec(counts),
{
    let r = vec![
        text("Status:"),
        signed_line("  gesamt: ", counts.total()),
        signed_line("  ungesehen: ", counts.unseen),
        signed_line("  später: ", counts.undecided),
        signed_line("  ausgewählt: ", counts.selected),
        signed_line("  abgelehnt: ", counts.rejected),
    ];
    assert(line_views(r@) =~= status_lines_spec(counts));
    r
}

/// The report of an import.
pub open spec fn import_lines_spec(s: ImportSummary) -> Seq<Seq<char>> {
    seq![
        "Import abgeschlossen:"@,
        "  gescannt: "@ + decimal(s.scanned as nat),
        "  neu importiert: "@ + decimal(s.imported as nat),
        "  schon vorhanden: "@ + decimal(s.duplicates as nat),
        "  übersprungen/unsupported: "@ + decimal(s.unsupported as nat),
        "  Lesefehler beim Durchsuchen: "@ + decimal(s.walk_errors as nat),
    ]
}

/// The lines that report an import.
pub fn import_report_lines(summary: &ImportSummary) -> (r: Vec<String>)
    ensures
        line_views(r@) == import_lines_spec(*summary),
{
    let r = vec![
        text("Import abgeschlossen:"),
        count_line("  gescannt: ", summary.scanned),
        count_line("  neu importiert: ", summary.imported),
        count_line("  schon vorhanden: ", summary.duplicates),
        count_line("  übersprungen/unsupported: ", summary.unsupported),
        count_line("  Lesefehler beim Durchsuchen: ", summary.walk_errors),
    ];
    assert(line_views(r@) =~= import_lines_spec(*summary));
    r
}

/// The warnings before an export: pictures still undecided, and no picture
/// selected.
pub open spec fn export_warnings_spec(c: StatusCounts) -> Seq<Seq<char>> {
    let pending = if c.unseen > 0 || c.undecided > 0 {
        seq![
            "Warnung: Es gibt noch "@ + signed_decimal(c.unseen as int) + " ungesehene und "@
                + signed_decimal(c.undecided as int)
                + " Später-Bilder. Export läuft trotzdem weiter."@,
        ]
    } else {
        Seq::empty()
    };
    let none = if c.selected == 0 {
        seq!["Warnung: Es sind keine Bilder ausgewählt. Es wird nur ein Manifest erstellt."@]
    } else {
        Seq::empty()
    };
    pending + none
}

/// The warnings printed before an export.
pub fn export_warning_lines(counts: StatusCounts) -> (r: Vec<String>)
    ensures
        line_views(r@) == export_warnings_spec(counts),
{
    let mut r: Vec<String> = Vec::new();
    if counts.unseen > 0 || counts.undecided > 0 {
        let mut s = signed_line("Warnung: Es gibt noch ", counts.unseen);
        push_str(&mut s, " ungesehene und ");
        push_signed(&mut s, counts.undecided);
        push_str(&mut s, " Später-Bilder. Export läuft trotzdem weiter.");
        r.push(s);
    }
    if counts.selected == 0 {
        r.push(text("Warnung: Es sind keine Bilder ausgewählt. Es wird nur ein Manifest erstellt."));
    }
    assert(line_views(r@) =~= export_warnings_spec(counts));
    r
}

/// The line announcing an export.
pub fn export_start_line(counts: StatusCounts) -> (r: String)
    ensures
        r@ == "Exportiere "@ + signed_decimal(counts.selected as int) + " ausgewählte Bilder …"@,
{
    let mut s = signed_line("Exportiere ", counts.selected);
    push_str(&mut s, " ausgewählte Bilder …");
    s
}

/// The report of an export: folder, manifest, counts, then one line per
/// failure.
pub open spec fn export_lines_spec(s: ExportSummary) -> Seq<Seq<char>> {
    seq![
        "Export abgeschlossen:"@,
        "  Ordner: "@ + s.export_dir@,
        "  Manifest: "@ + join(s.export_dir@, "manifest.csv"@),
        "  kopiert: "@ + decimal(s.copied as nat),
        "  fehlgeschlagen: "@ + decimal(s.failed@.len()),
    ] + s.failed@.map_values(
        |f: crate::export::ExportFailure|
            "  FEHLER: "@ + f.original_path@ + " -> "@ + f.destination_path@ + ": "@ + f.message@,
    )
}

/// The lines that report an export.
pub fn export_report_lines(summary: &ExportSummary) -> (r: Vec<String>)
    ensures
        line_views(r@) == export_lines_spec(*summary),
{
    let manifest = join_path(summary.export_dir.as_str(), "manifest.csv");
    let mut r: Vec<String> = vec![
        text("Export abgeschlossen:"),
        text_line("  Ordner: ", summary.export_dir.as_str()),
        text_line("  Manifest: ", manifest.as_str()),
        count_line("  kopiert: ", summary.copied),
        count_line("  fehlgeschlagen: ", summary.failed.len()),
    ];
    let ghost want = export_lines_spec(*summary);
    let mut i: usize = 0;
    while i < summary.failed.len()
        invariant
            want == export_lines_spec(*summary),
            i <= summary.failed@.len(),
            line_views(r@) == want.subrange(0, 5 + i),
        decreases summary.failed.len() - i,
    {
        let f = &summary.failed[i];
        let mut s = text_line("  FEHLER: ", f.original_path.as_str());
        push_str(&mut s, " -> ");
        push_str(&mut s, f.destination_path.as_str());
        push_str(&mut s, ": ");
        push_str(&mut s, f.message.as_str());
        let ghost before = r@;
        r.push(s);
        proof {
            assert(line_views(r@) =~= line_views(before).push(s@));
            assert(want.subrange(0, 5 + i + 1) =~= want.subrange(0, 5 + i).push(want[5 + i]));
        }
        i = i + 1;
    }
    assert(want.subrange(0, 5 + summary.failed@.len() as int) =~= want);
    r
}

/// The lines after a project file has been opened or created.
pub fn init_report_lines(project_path: &str) -> (r: Vec<String>)
    ensures
        line_views(r@) == seq![
            "Projekt bereit: "@ + project_path@,
            "Nächster Schritt: image-chooser import <photo-folder>"@,
        ],
{
    let r = vec![
        text_line("Projekt bereit: ", project_path),
        text("Nächster Schritt: image-chooser import <photo-folder>"),
    ];
    assert(line_views(r@) =~= seq![
        "Projekt bereit: "@ + project_path@,
        "Nächster Schritt: image-chooser import <photo-folder>"@,
    ]);
    r
}

/// The line naming the project of a `stats` command.
pub fn project_line(project_path: &str) -> (r: String)
    ensures
        r@ == "Projekt: "@ + project_path@,
{
    text_line("Projekt: ", project_path)
}

/// The line printed when a command fails.
pub fn failure_line(error: &Error) -> (r: String)
    ensures
        r@ == "Fehler: "@ + error_message(*error),
{
    let m = error.message();
    text_line("Fehler: ", m.as_str())
}

} // verus!
