# image-chooser

A desktop tool for picking the photos worth printing out of a large
collection: import a folder, answer Ja / Nein / Später for one picture after
the other, then export the chosen ones with a CSV manifest.

## Layout

- `src/` — the library, written in Verus and verified:
  - `project.rs` — the table of pictures of a project, its queries
    (next unseen, next postponed) and the changes a decision makes;
  - `import.rs` — what an import counts, how new pictures are ordered (EXIF
    capture time, then modification time, then path) and where they go;
  - `export.rs` — export folder and file names, the export run and its
    manifest;
  - `session.rs` — the decisions of the chooser window (choices, undo,
    review of postponed pictures, keyboard shortcuts, texts);
  - `cli.rs`, `report.rs` — the command-line grammar and what it prints;
  - `paths.rs`, `text.rs`, `order.rs`, `clock.rs`, `status.rs`, `image.rs`,
    `error.rs` — the building blocks;
  - `laws.rs` — properties that span several operations.
- `app/` — the program around it: the SQLite project file, the folder walk,
  file copies, and the iced window.
- `tests/` — scenarios run against the library.

## Commands

| Command | Description |
|---|---|
| `gui [project]` | Launch the selection window |
| `init [project]` | Create or open a project file |
| `import [project] <folder>` | Recursively import images |
| `export [project] <folder>` | Copy selected images to an export folder |
| `stats [project]` | Show status counts |
| `help` | Print usage |

Without a project argument the default project
`<local data dir>/image-chooser/project.sqlite` is used.
