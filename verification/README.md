# rs_gitdiffcopy

A tool that copies the files changed between two git revisions (or between
ours and theirs against a common base) into a folder of their own, keeping
the directory structure, and reports the changes as a text summary and an
Excel workbook.

## Layout

- `src/` is the library, written and proved with Verus: the reading of git's
  answers (`git`), the merging of settings (`config`), the comparison and its
  statistics (`diff`), the copy plans (`copy`), the output-folder safety rules
  (`safety`), the text summary and its file tree (`summary`, `tree`), the
  workbook sheets (`excel`) and the decisions of a run (`flow`). Calls into
  `globset`, `chrono`, `dirs`, `unicode-width`, `colored`, `atty` and `log`
  stand behind small wrappers whose contracts say what those crates do.
- `app/` is the program around it: the command line (clap), the settings
  files (serde, toml), running git, writing files in parallel, the
  confirmation prompt and the rendering of the workbook with
  `rust_xlsxwriter`.
- `tests/` holds the tests of the library.

## Output

A two-way comparison copies each changed file to its place under the
output folder (`.old`/`.new` with `--both-versions`, `.deleted` for deleted
files with `--copy-deleted`). A three-way comparison keeps each file's place
and adds its status to the name (`src/a.rs.ours-only`); a conflict is copied
once per version the merge style asks for (`src/b.rs.conflict.ours`).

## Exit codes

| Code | Meaning |
|------|---------|
| 0 | Differences found |
| 1 | Error |
| 2 | No differences |
| 3 | Conflicts found (three-way) |
