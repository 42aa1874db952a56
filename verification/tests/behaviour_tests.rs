use rs_gitdiffcopy::cli::Cli;
use rs_gitdiffcopy::config::{AppSettings, InputConfig, MergedConfig};
use rs_gitdiffcopy::copy::{commit_of, FileCopier, Side};
use rs_gitdiffcopy::diff::DiffDetector;
use rs_gitdiffcopy::error::{AppError, ExitCode};
use rs_gitdiffcopy::excel::{CellStyle, CellValue, ExcelWriter};
use rs_gitdiffcopy::flow::{combined_patch_path, decide_output_with_home, display_files, repo_location, three_way_exit, two_way_exit, OutputAction, RepoLocation};
use rs_gitdiffcopy::git::{CommandOutput, Git, TreeListing};
use rs_gitdiffcopy::safety::TargetOs;
use rs_gitdiffcopy::summary::{display_width, options_chars, short_prefix, SummaryWriter};
use rs_gitdiffcopy::types::{
    expand_filter_status_three_way,
    ColorMode, DiffFile, FileStatus, LogLevel, MergeStyle, PermissionCheckMode, Statistics, ThreeWayDiffFile,
    ThreeWayStatistics, ThreeWayStatus,
};

fn config() -> MergedConfig {
    MergedConfig {
        repository: None,
        git_path: None,
        full_clone: false,
        cache_dir: None,
        source: "main".to_string(),
        target: "develop".to_string(),
        output: "/tmp/out".to_string(),
        exclude: vec![],
        force: false,
        verbose: false,
        dry_run: false,
        both_versions: false,
        summary: None,
        check_permissions: PermissionCheckMode::Off,
        patch: false,
        patch_file: None,
        excel: None,
        excel_fold_level: None,
        show_unchanged: false,
        filter_status: vec![],
        stats_only: false,
        no_tree: false,
        no_details: false,
        copy_deleted: false,
        preserve_timestamps: false,
        workers: 2,
        temp_dir: None,
        color: ColorMode::Never,
        log_level: LogLevel::Warn,
        three_way: false,
        base: None,
        merge_style: MergeStyle::All,
        conflict_only: false,
    }
}

fn ok_output(text: &str) -> CommandOutput {
    CommandOutput { success: true, stdout: text.to_string(), raw_stdout: text.as_bytes().to_vec(), stderr: String::new() }
}

fn failed_output(err: &str) -> CommandOutput {
    CommandOutput { success: false, stdout: String::new(), raw_stdout: vec![], stderr: err.to_string() }
}

fn listing(entries: &[(&str, &str, &str)]) -> TreeListing {
    let mut l = TreeListing::new();
    for (path, mode, blob) in entries {
        l.insert(path.to_string(), mode.to_string(), blob.to_string());
    }
    l
}

fn three_way(path: &str, status: ThreeWayStatus, blobs: (Option<&str>, Option<&str>, Option<&str>)) -> ThreeWayDiffFile {
    let mut f = ThreeWayDiffFile::new(path.to_string(), status);
    f.base_blob = blobs.0.map(|s| s.to_string());
    f.ours_blob = blobs.1.map(|s| s.to_string());
    f.theirs_blob = blobs.2.map(|s| s.to_string());
    f
}

// ---- differences ----

#[test]
fn exclusion_patterns_drop_matching_files() {
    let mut c = config();
    c.exclude = vec!["*.log".to_string(), "target/**".to_string()];
    let d = DiffDetector::new(&c);
    let files = vec![
        DiffFile::new("a.log".to_string(), FileStatus::Added),
        DiffFile::new("src/main.rs".to_string(), FileStatus::Modified),
        DiffFile::new("target/debug/x".to_string(), FileStatus::Added),
    ];
    let kept = d.filter_excluded(files).unwrap();
    assert_eq!(kept.len(), 1);
    assert_eq!(kept[0].path, "src/main.rs");
    assert_eq!(d.is_excluded("b.log").unwrap(), true);
    assert_eq!(d.is_excluded("b.txt").unwrap(), false);
}

#[test]
fn invalid_exclusion_pattern_is_reported() {
    let mut c = config();
    c.exclude = vec!["ok/*".to_string(), "bad[".to_string()];
    let d = DiffDetector::new(&c);
    match d.is_excluded("x") {
        Err(AppError::InvalidGlobPattern(p)) => assert_eq!(p, "bad["),
        other => panic!("unexpected {:?}", other),
    }
}

#[test]
fn no_patterns_keep_everything() {
    let d = DiffDetector::new(&config());
    let files = vec![DiffFile::new("a.log".to_string(), FileStatus::Added)];
    assert_eq!(d.filter_excluded(files).unwrap().len(), 1);
    assert_eq!(d.is_excluded("a.log").unwrap(), false);
}

#[test]
fn statistics_count_every_file_once() {
    let mut perm = DiffFile::new("run.sh".to_string(), FileStatus::Modified);
    perm.source_mode = Some("100644".to_string());
    perm.target_mode = Some("100755".to_string());
    perm.source_blob = Some("b1".to_string());
    perm.target_blob = Some("b1".to_string());
    let mut link = DiffFile::new("l".to_string(), FileStatus::Added);
    link.is_symlink = true;
    let mut broken = DiffFile::new("e".to_string(), FileStatus::Deleted);
    broken.error = Some("x".to_string());
    let files = vec![perm, link, broken, DiffFile::new("u".to_string(), FileStatus::Unchanged)];
    let s = DiffDetector::calculate_statistics(&files);
    assert_eq!(s.modified, 1);
    assert_eq!(s.added, 1);
    assert_eq!(s.deleted, 1);
    assert_eq!(s.unchanged, 1);
    assert_eq!(s.symlinks, 1);
    assert_eq!(s.permission_changes, 1);
    assert_eq!(s.errors, 1);
    assert_eq!(s.total(), files.len());
}

#[test]
fn three_way_status_table() {
    let p = |s: &str| ("100644".to_string(), s.to_string());
    let (a, b, c) = (p("a"), p("b"), p("c"));
    let st = DiffDetector::determine_three_way_status;
    assert_eq!(st(Some(&a), Some(&a), Some(&a)), ThreeWayStatus::Unchanged);
    assert_eq!(st(Some(&a), Some(&b), Some(&a)), ThreeWayStatus::OursOnly);
    assert_eq!(st(Some(&a), Some(&a), Some(&b)), ThreeWayStatus::TheirsOnly);
    assert_eq!(st(Some(&a), Some(&b), Some(&b)), ThreeWayStatus::BothSame);
    assert_eq!(st(Some(&a), Some(&b), Some(&c)), ThreeWayStatus::Conflict);
    assert_eq!(st(Some(&a), None, Some(&a)), ThreeWayStatus::DeletedOurs);
    assert_eq!(st(Some(&a), None, Some(&b)), ThreeWayStatus::DeleteModify);
    assert_eq!(st(Some(&a), Some(&a), None), ThreeWayStatus::DeletedTheirs);
    assert_eq!(st(Some(&a), Some(&b), None), ThreeWayStatus::ModifyDelete);
    assert_eq!(st(Some(&a), None, None), ThreeWayStatus::DeletedBoth);
    assert_eq!(st(None, Some(&a), None), ThreeWayStatus::AddedOurs);
    assert_eq!(st(None, None, Some(&a)), ThreeWayStatus::AddedTheirs);
    assert_eq!(st(None, Some(&a), Some(&a)), ThreeWayStatus::AddedBothSame);
    assert_eq!(st(None, Some(&a), Some(&b)), ThreeWayStatus::AddedBothDiff);
    assert_eq!(st(None, None, None), ThreeWayStatus::Unchanged);
}

#[test]
fn swapping_sides_mirrors_the_status() {
    let p = |s: &str| ("100644".to_string(), s.to_string());
    let (a, b) = (p("a"), p("b"));
    let st = DiffDetector::determine_three_way_status;
    assert_eq!(st(Some(&a), Some(&b), None), ThreeWayStatus::ModifyDelete);
    assert_eq!(st(Some(&a), None, Some(&b)), ThreeWayStatus::DeleteModify);
    assert_eq!(st(None, Some(&a), None), ThreeWayStatus::AddedOurs);
    assert_eq!(st(None, None, Some(&a)), ThreeWayStatus::AddedTheirs);
}

#[test]
fn unchanged_files_are_found_in_both_listings() {
    let source = listing(&[("a.txt", "100644", "x"), ("b.txt", "100644", "y"), ("link", "120000", "z"), ("c.txt", "100644", "w")]);
    let target = listing(&[("a.txt", "100755", "x"), ("b.txt", "100644", "changed"), ("link", "120000", "z"), ("c.txt", "100644", "w")]);
    let changed = vec![DiffFile::new("c.txt".to_string(), FileStatus::Modified)];
    let un = DiffDetector::detect_unchanged(&source, &target, &changed);
    assert_eq!(un.len(), 1);
    assert_eq!(un[0].path, "a.txt");
    assert_eq!(un[0].status, FileStatus::Unchanged);
    assert_eq!(un[0].source_mode.as_deref(), Some("100644"));
    assert_eq!(un[0].target_mode.as_deref(), Some("100755"));
}

#[test]
fn modes_mark_links_and_submodules() {
    let mut renamed = DiffFile::new("new.sh".to_string(), FileStatus::Renamed);
    renamed.original_path = Some("old.sh".to_string());
    let f = DiffDetector::apply_modes(renamed, Some("100644".to_string()), Some("160000".to_string()), Some("100755".to_string()));
    assert_eq!(f.source_mode.as_deref(), Some("100755"));
    assert_eq!(f.target_mode.as_deref(), Some("160000"));
    assert!(f.is_submodule);
    assert!(!f.is_symlink);
    let g = DiffDetector::apply_modes(DiffFile::new("l".to_string(), FileStatus::Added), None, Some("120000".to_string()), None);
    assert!(g.is_symlink);
}

#[test]
fn two_way_detection_adds_unchanged_files_when_asked() {
    let mut c = config();
    c.show_unchanged = true;
    c.exclude = vec!["*.tmp".to_string()];
    let d = DiffDetector::new(&c);
    let source = listing(&[("keep.txt", "100644", "k"), ("mod.txt", "100644", "m1")]);
    let target = listing(&[("keep.txt", "100644", "k"), ("mod.txt", "100755", "m2"), ("x.tmp", "100644", "t")]);
    let changes = vec![
        DiffFile::new("mod.txt".to_string(), FileStatus::Modified),
        DiffFile::new("x.tmp".to_string(), FileStatus::Added),
    ];
    let (files, stats) = d.detect_two_way(changes, &source, &target).unwrap();
    assert_eq!(files.len(), 2);
    assert_eq!(files[0].path, "mod.txt");
    assert_eq!(files[0].target_mode.as_deref(), Some("100755"));
    assert_eq!(files[1].path, "keep.txt");
    assert_eq!(stats.modified, 1);
    assert_eq!(stats.unchanged, 1);
    assert_eq!(stats.total(), 2);
}

#[test]
fn unchanged_files_are_counted_when_not_listed() {
    let c = config();
    let d = DiffDetector::new(&c);
    let source = listing(&[("keep.txt", "100644", "k"), ("mod.txt", "100644", "m1"), ("also.txt", "100644", "a")]);
    let target = listing(&[("keep.txt", "100644", "k"), ("mod.txt", "100644", "m2"), ("also.txt", "100644", "a")]);
    let changes = vec![DiffFile::new("mod.txt".to_string(), FileStatus::Modified)];
    let (files, stats) = d.detect_two_way(changes, &source, &target).unwrap();
    assert_eq!(files.len(), 1);
    assert_eq!(files[0].path, "mod.txt");
    assert_eq!(stats.modified, 1);
    assert_eq!(stats.unchanged, 2);
    assert_eq!(stats.total(), 3);
    let mut shown = config();
    shown.show_unchanged = true;
    let source2 = listing(&[("keep.txt", "100644", "k"), ("mod.txt", "100644", "m1"), ("also.txt", "100644", "a")]);
    let target2 = listing(&[("keep.txt", "100644", "k"), ("mod.txt", "100644", "m2"), ("also.txt", "100644", "a")]);
    let changes2 = vec![DiffFile::new("mod.txt".to_string(), FileStatus::Modified)];
    let (files2, stats2) = DiffDetector::new(&shown).detect_two_way(changes2, &source2, &target2).unwrap();
    assert_eq!(files2.len(), 3);
    assert_eq!(stats2.unchanged, stats.unchanged);
    assert_eq!(stats2.total(), stats.total());
}

#[test]
fn three_way_detection_lists_every_path_once() {
    let base = listing(&[("same", "100644", "s"), ("mine", "100644", "m0"), ("both", "100644", "b0"), ("gone", "100644", "g")]);
    let ours = listing(&[("same", "100644", "s"), ("mine", "100644", "m1"), ("both", "100644", "b1"), ("new", "100644", "n")]);
    let theirs = listing(&[("same", "100644", "s"), ("mine", "100644", "m0"), ("both", "100644", "b2"), ("new", "100644", "n")]);
    let d = DiffDetector::new(&config());
    let (files, stats) = d.detect_three_way(&base, &ours, &theirs).unwrap();
    let paths: Vec<&str> = files.iter().map(|f| f.path.as_str()).collect();
    assert_eq!(paths, vec!["mine", "both", "gone", "new"]);
    assert_eq!(files[0].status, ThreeWayStatus::OursOnly);
    assert_eq!(files[1].status, ThreeWayStatus::Conflict);
    assert_eq!(files[2].status, ThreeWayStatus::DeletedBoth);
    assert_eq!(files[3].status, ThreeWayStatus::AddedBothSame);
    assert_eq!(files[1].theirs_blob.as_deref(), Some("b2"));
    assert_eq!(stats.total(), 4);
    assert_eq!(stats.conflicts(), 1);
}

#[test]
fn three_way_statistics_by_status() {
    let files = vec![
        three_way("a", ThreeWayStatus::Conflict, (None, None, None)),
        three_way("b", ThreeWayStatus::ModifyDelete, (None, None, None)),
        three_way("c", ThreeWayStatus::AddedOurs, (None, None, None)),
    ];
    let s = DiffDetector::calculate_three_way_statistics(&files);
    assert_eq!(s.conflict, 1);
    assert_eq!(s.modify_delete, 1);
    assert_eq!(s.added_ours, 1);
    assert_eq!(s.total(), 3);
    assert_eq!(s.conflicts(), 2);
}

// ---- copying ----

#[test]
fn two_way_copy_plan() {
    let mut c = config();
    c.both_versions = true;
    c.copy_deleted = true;
    c.preserve_timestamps = true;
    let copier = FileCopier::new(&c);
    let mut renamed = DiffFile::new("new/name.txt".to_string(), FileStatus::Renamed);
    renamed.original_path = Some("old/name.txt".to_string());
    let files = vec![
        DiffFile::new("add.txt".to_string(), FileStatus::Added),
        renamed,
        DiffFile::new("gone.txt".to_string(), FileStatus::Deleted),
        DiffFile::new("same.txt".to_string(), FileStatus::Unchanged),
    ];
    let plans = copier.plan_two_way(&files);
    assert_eq!(plans.len(), 3);
    assert_eq!(plans[0].steps.len(), 1);
    assert_eq!(plans[0].steps[0].side, Side::Target);
    assert_eq!(plans[0].steps[0].dest, "add.txt");
    assert_eq!(plans[1].steps.len(), 2);
    assert_eq!(plans[1].steps[0].repo_path, "old/name.txt");
    assert_eq!(plans[1].steps[0].dest, "new/name.txt.old");
    assert_eq!(plans[1].steps[1].dest, "new/name.txt.new");
    assert_eq!(plans[2].steps[0].side, Side::Source);
    assert_eq!(plans[2].steps[0].dest, "gone.txt.deleted");
    assert!(plans[2].steps[0].set_timestamp);
}

#[test]
fn dry_run_copies_nothing() {
    let mut c = config();
    c.dry_run = true;
    let copier = FileCopier::new(&c);
    let files = vec![DiffFile::new("add.txt".to_string(), FileStatus::Added)];
    assert!(copier.plan_two_way(&files).is_empty());
}

#[test]
fn status_filter_limits_copies() {
    let mut c = config();
    c.filter_status = vec!["m".to_string()];
    let copier = FileCopier::new(&c);
    assert!(!copier.should_copy(&DiffFile::new("a".to_string(), FileStatus::Added)));
    assert!(copier.should_copy(&DiffFile::new("b".to_string(), FileStatus::Modified)));
    assert!(!copier.should_copy(&DiffFile::new("c".to_string(), FileStatus::Deleted)));
}

#[test]
fn exclusion_words_start_from_every_status() {
    let mut c = config();
    c.filter_status = vec!["^deleted".to_string()];
    c.copy_deleted = true;
    let copier = FileCopier::new(&c);
    assert!(copier.should_copy(&DiffFile::new("a".to_string(), FileStatus::Added)));
    assert!(copier.should_copy(&DiffFile::new("b".to_string(), FileStatus::Modified)));
    assert!(!copier.should_copy(&DiffFile::new("c".to_string(), FileStatus::Deleted)));
    c.filter_status = vec!["added".to_string(), "^a".to_string()];
    let copier = FileCopier::new(&c);
    assert!(!copier.should_copy(&DiffFile::new("a".to_string(), FileStatus::Added)));
    assert!(!copier.should_copy(&DiffFile::new("b".to_string(), FileStatus::Modified)));
    c.filter_status = vec!["bogus".to_string()];
    let copier = FileCopier::new(&c);
    assert!(!copier.should_copy(&DiffFile::new("a".to_string(), FileStatus::Added)));
}

#[test]
fn three_way_copy_plan_by_merge_style() {
    let mut c = config();
    c.three_way = true;
    let copier = FileCopier::new(&c);
    let files = vec![
        three_way("x/ours.rs", ThreeWayStatus::OursOnly, (Some("b"), Some("o"), Some("b"))),
        three_way("c.rs", ThreeWayStatus::Conflict, (Some("b"), Some("o"), Some("t"))),
        three_way("d.rs", ThreeWayStatus::DeleteModify, (Some("b"), None, Some("t"))),
        three_way("gone.rs", ThreeWayStatus::DeletedBoth, (Some("b"), None, None)),
        three_way("old.rs", ThreeWayStatus::DeletedOurs, (Some("b"), None, Some("b"))),
    ];
    let plans = copier.plan_three_way(&files);
    assert_eq!(plans.len(), 5);
    assert_eq!(plans[0].steps[0].dest, "x/ours.rs.ours-only");
    assert_eq!(plans[0].steps[0].side, Side::Ours);
    let dests: Vec<&str> = plans[1].steps.iter().map(|s| s.dest.as_str()).collect();
    assert_eq!(dests, vec!["c.rs.conflict.base", "c.rs.conflict.ours", "c.rs.conflict.theirs"]);
    let dests: Vec<&str> = plans[2].steps.iter().map(|s| s.dest.as_str()).collect();
    assert_eq!(dests, vec!["d.rs.delete-modify.base", "d.rs.delete-modify.theirs"]);
    assert!(plans[2].counts);
    assert!(plans[3].steps.is_empty());
    assert!(!plans[3].counts);
    assert_eq!(plans[4].steps.len(), 1);
    assert_eq!(plans[4].steps[0].dest, "old.rs.deleted-ours");
    assert_eq!(plans[4].steps[0].side, Side::Base);
    assert!(plans[4].counts);

    c.merge_style = MergeStyle::Theirs;
    c.conflict_only = true;
    let copier = FileCopier::new(&c);
    let plans = copier.plan_three_way(&files);
    assert_eq!(plans.len(), 2);
    assert_eq!(plans[0].steps.len(), 1);
    assert_eq!(plans[0].steps[0].dest, "c.rs.conflict.theirs");
}

#[test]
fn tally_counts_successes_and_names_failures() {
    let copier = FileCopier::new(&config());
    let files = vec![
        DiffFile::new("a".to_string(), FileStatus::Added),
        DiffFile::new("b".to_string(), FileStatus::Modified),
    ];
    let plans = copier.plan_two_way(&files);
    let (n, errors) = FileCopier::tally(&plans, &[None, Some("disk full".to_string())]);
    assert_eq!(n, 1);
    assert_eq!(errors, vec!["b: disk full".to_string()]);
}

#[test]
fn commit_dates_parse_to_timestamps() {
    assert_eq!(FileCopier::commit_timestamp("2024-01-02 03:04:05 +0900"), Some(1704132245));
    assert_eq!(FileCopier::commit_timestamp("1970-01-01 00:00:00 +0000"), Some(0));
    assert_eq!(FileCopier::commit_timestamp("not a date"), None);
}

// ---- summary and tree ----

#[test]
fn tree_is_drawn_in_name_order() {
    let c = config();
    let w = SummaryWriter::new(&c);
    let files = vec![
        DiffFile::new("src/main.rs".to_string(), FileStatus::Modified),
        DiffFile::new("README.md".to_string(), FileStatus::Added),
        DiffFile::new("src/lib.rs".to_string(), FileStatus::Added),
    ];
    let tree = w.build_tree(&files);
    assert!(tree.contains_key("src"));
    assert!(tree.contains_key("README.md"));
    assert_eq!(tree.items[0].name, "README.md");
    assert_eq!(tree.items[1].name, "src");
    let width = w.calculate_max_tree_width(&tree, "");
    // "    └── main.rs": 4 spaces, three box characters of 2 columns, a space and 7 columns.
    assert_eq!(width, 18);
}

#[test]
fn two_way_report_text() {
    let mut c = config();
    c.no_details = false;
    let w = SummaryWriter::new(&c);
    let mut renamed = DiffFile::new("b.txt".to_string(), FileStatus::Renamed);
    renamed.original_path = Some("a.txt".to_string());
    renamed.similarity = Some(90);
    let files = vec![renamed];
    let stats = DiffDetector::calculate_statistics(&files);
    let labels = w.status_labels(&files, false);
    let text = w.two_way_report(&files, &stats, "main", "0123456789", "dev", "abcdef0123", "/repo", &[], &labels, true, "2024-01-01 00:00:00");
    let expected = "rs_gitdiffcopy Summary\n======================\nRepository: /repo\nSource ref: main (0123456)\nTarget ref: dev (abcdef0)\nOutput: /tmp/out\nDate: 2024-01-01 00:00:00\n\nOptions:\n\nAdded:         0 files\nModified:      0 files\nDeleted:       0 files\nRenamed:       1 files\nUnchanged:     0 files\n--------------------------\nTotal:        1 items\n\n\n================\nFile Tree\n================\n.\n└── b.txt [renamed]\n\n================\nRenamed Files\n================\n  a.txt -> b.txt (90% similar)\n";
    assert_eq!(text, expected);
}

#[test]
fn exclusion_only_filters_show_the_implied_all() {
    let mut c = config();
    c.filter_status = vec!["^deleted".to_string(), "^unchanged".to_string()];
    let text: String = options_chars(&c).into_iter().collect();
    assert!(text.contains("  Filter status: all (implied), ^deleted, ^unchanged\n"));
    c.filter_status = vec!["all".to_string(), "^deleted".to_string()];
    let text: String = options_chars(&c).into_iter().collect();
    assert!(text.contains("  Filter status: all, ^deleted\n"));
    c.filter_status = vec!["added".to_string(), "modified".to_string()];
    let text: String = options_chars(&c).into_iter().collect();
    assert!(text.contains("  Filter status: added, modified\n"));
}

#[test]
fn statistics_only_trims_the_console_copy_alone() {
    let mut c = config();
    c.stats_only = true;
    let w = SummaryWriter::new(&c);
    let files = vec![DiffFile::new("a.txt".to_string(), FileStatus::Added)];
    let stats = DiffDetector::calculate_statistics(&files);
    let labels = w.status_labels(&files, false);
    let date = "2024-01-01 00:00:00";
    let console = w.two_way_report(&files, &stats, "main", "0123456789", "dev", "abcdef0123", "/repo", &[], &labels, false, date);
    let file = w.two_way_report(&files, &stats, "main", "0123456789", "dev", "abcdef0123", "/repo", &[], &labels, true, date);
    assert!(!console.contains("File Tree"));
    assert!(!console.contains("Added Files"));
    assert!(file.contains("File Tree"));
    assert!(file.contains("Added Files"));
    let mut plain = config();
    plain.stats_only = false;
    let w2 = SummaryWriter::new(&plain);
    let file2 = w2.two_way_report(&files, &stats, "main", "0123456789", "dev", "abcdef0123", "/repo", &[], &labels, true, date);
    assert_eq!(file, file2);
}

#[test]
fn three_way_matrix_and_conflicts() {
    let mut c = config();
    c.no_tree = true;
    let w = SummaryWriter::new(&c);
    let mut f = three_way("c.rs", ThreeWayStatus::Conflict, (Some("0123456789abcdef"), Some("fedcba9876543210"), None));
    f.base_size = Some(12);
    let files = vec![f];
    let stats = DiffDetector::calculate_three_way_statistics(&files);
    let text = w.three_way_report(&files, &stats, "base", "b", "ours", "o", "theirs", "t", "/r", &["c.rs: oops".to_string()], false, "d");
    assert!(text.contains("Conflict        |     1\n"));
    assert!(text.contains("Total           |     1\n"));
    assert!(text.contains("1. c.rs\n   Type: Conflict\n   Base:   01234567... (12 bytes)\n   Ours:   fedcba98...\n\n"));
    assert!(text.ends_with("\n================\nCopy Failed\n================\n  c.rs: oops\n"));
}

#[test]
fn colored_tags_keep_the_tag() {
    let mut c = config();
    c.color = ColorMode::Always;
    let w = SummaryWriter::new(&c);
    assert!(w.use_color);
    let tag = w.format_status_tag(&DiffFile::new("x".to_string(), FileStatus::Deleted), true);
    assert!(tag == "[deleted]" || tag == "\u{1b}[31m[deleted]\u{1b}[0m");
}

#[test]
fn display_width_of_mixed_text() {
    assert_eq!(display_width("a\u{7}b"), 2);
    assert_eq!(display_width("日本"), 4);
    assert_eq!(display_width("│ a"), 4);
}

#[test]
fn short_prefix_counts_bytes() {
    assert_eq!(short_prefix("0123456789", 7), "0123456");
    assert_eq!(short_prefix("abc", 7), "abc");
}

// ---- workbook ----

#[test]
fn workbook_sheets() {
    let c = config();
    let x = ExcelWriter::new(&c);
    let files = vec![
        DiffFile::new("z.txt".to_string(), FileStatus::Added),
        DiffFile::new("a/b.txt".to_string(), FileStatus::Deleted),
        DiffFile::new("a-b.txt".to_string(), FileStatus::Modified),
    ];
    let stats = DiffDetector::calculate_statistics(&files);
    let sheets = x.write_two_way(&files, &stats, "main", "0123456789", "dev", "abcdef", "/r");
    assert_eq!(sheets.len(), 3);
    assert_eq!(sheets[0].name, "Summary");
    let tree = &sheets[1];
    let rows: Vec<String> = tree
        .cells
        .iter()
        .filter(|c| c.col == 0 && c.row > 0)
        .map(|c| match &c.value {
            CellValue::Text(t) => t.clone(),
            CellValue::Number(n) => n.to_string(),
        })
        .collect();
    assert_eq!(rows, vec!["a/b.txt", "a-b.txt", "z.txt"]);
    let details = &sheets[2];
    assert_eq!(details.cells.len(), 4 + 4 * 3);
    match &details.cells[5].value {
        CellValue::Text(t) => assert_eq!(t, ""),
        _ => panic!("text expected"),
    }
    match &details.cells[10].value {
        CellValue::Text(t) => assert_eq!(t, "b.txt"),
        _ => panic!("text expected"),
    }
    assert_eq!(details.cells[8].style, CellStyle::StatusCell(FileStatus::Deleted));
}

#[test]
fn workbook_three_way_sheets() {
    let c = config();
    let x = ExcelWriter::new(&c);
    let files = vec![
        three_way("dir/c.rs", ThreeWayStatus::AddedBothDiff, (None, Some("0123456789"), Some("abc"))),
        three_way("gone", ThreeWayStatus::DeletedOurs, (Some("x"), None, Some("x"))),
    ];
    let stats = DiffDetector::calculate_three_way_statistics(&files);
    let sheets = x.write_three_way(&files, &stats, "b", "bbbbbbbbb", "o", "o", "t", "t", "/r");
    assert_eq!(sheets.len(), 4);
    let conflicts = &sheets[2];
    assert_eq!(conflicts.cells.len(), 6 + 6);
    match &conflicts.cells[10].value {
        CellValue::Text(t) => assert_eq!(t, "01234567"),
        _ => panic!("text expected"),
    }
    let copied = &sheets[3];
    assert_eq!(copied.cells.len(), 4 + 4 + 4);
    match &copied.cells[7].value {
        CellValue::Text(t) => assert_eq!(t, "conflict"),
        _ => panic!("text expected"),
    }
    match &copied.cells[11].value {
        CellValue::Text(t) => assert_eq!(t, "base"),
        _ => panic!("text expected"),
    }
}

// ---- run decisions ----

#[test]
fn sides_read_their_commits() {
    assert_eq!(commit_of(Side::Source, "s", "t", "b"), "s");
    assert_eq!(commit_of(Side::Ours, "s", "t", "b"), "s");
    assert_eq!(commit_of(Side::Target, "s", "t", "b"), "t");
    assert_eq!(commit_of(Side::Theirs, "s", "t", "b"), "t");
    assert_eq!(commit_of(Side::Base, "s", "t", "b"), "b");
}

#[test]
fn added_theirs_indicator_uses_ascii_hyphens() {
    assert_eq!(ThreeWayStatus::AddedTheirs.indicator(), "[--A]");
    assert_eq!(ThreeWayStatus::AddedOurs.indicator(), "[-A-]");
}

#[test]
fn dry_run_writes_no_patch_file() {
    let mut c = config();
    assert_eq!(combined_patch_path(&c), None);
    c.patch_file = Some("changes.patch".to_string());
    assert_eq!(combined_patch_path(&c), Some("changes.patch"));
    c.dry_run = true;
    assert_eq!(combined_patch_path(&c), None);
}

#[test]
fn output_folder_decisions() {
    let mut c = config();
    assert_eq!(decide_output_with_home(&c, false, "/tmp/out", None, TargetOs::Linux).unwrap(), OutputAction::Proceed);
    match decide_output_with_home(&c, true, "/tmp/out", None, TargetOs::Linux) {
        Err(AppError::OutputExists(p)) => assert_eq!(p, "/tmp/out"),
        other => panic!("unexpected {:?}", other),
    }
    c.dry_run = true;
    assert_eq!(decide_output_with_home(&c, true, "/tmp/out", None, TargetOs::Linux).unwrap(), OutputAction::Proceed);
    c.dry_run = false;
    c.force = true;
    assert_eq!(decide_output_with_home(&c, true, "/tmp/out", None, TargetOs::Linux).unwrap(), OutputAction::ConfirmAndRemove);
    c.output = "~".to_string();
    match decide_output_with_home(&c, true, "/home/alice", Some("/home/alice"), TargetOs::Linux) {
        Err(AppError::ProtectedPath(p)) => assert_eq!(p, "~"),
        other => panic!("unexpected {:?}", other),
    }
}

#[test]
fn repository_locations() {
    assert_eq!(repo_location(None).unwrap(), RepoLocation::CurrentDir);
    assert_eq!(repo_location(Some("../repo")).unwrap(), RepoLocation::Local("../repo".to_string()));
    match repo_location(Some("https://example.com/r.git")) {
        Err(AppError::Other(m)) => assert_eq!(m, "Remote repository support is not yet implemented."),
        other => panic!("unexpected {:?}", other),
    }
}

#[test]
fn exit_codes() {
    let mut s = Statistics::default();
    s.unchanged = 3;
    assert_eq!(two_way_exit(&s), ExitCode::NoDifference);
    s.added = 1;
    assert_eq!(two_way_exit(&s), ExitCode::Success);
    let mut t = ThreeWayStatistics::default();
    assert_eq!(three_way_exit(&t), ExitCode::NoDifference);
    t.ours_only = 1;
    assert_eq!(three_way_exit(&t), ExitCode::Success);
    t.delete_modify = 1;
    assert_eq!(three_way_exit(&t), ExitCode::Conflict);
    assert_eq!(i32::from(ExitCode::Conflict), 3);
    assert_eq!(ExitCode::NoDifference.code(), 2);
}

#[test]
fn shown_files_follow_the_filter() {
    let files = vec![
        three_way("a", ThreeWayStatus::Conflict, (None, None, None)),
        three_way("b", ThreeWayStatus::OursOnly, (None, None, None)),
    ];
    let all = display_files(&files, &[]);
    assert_eq!(all.len(), 2);
    let only = display_files(&files, &["^conflicts".to_string()]);
    assert_eq!(only.len(), 1);
    assert_eq!(only[0].path, "b");
}

// ---- git answers and errors ----

#[test]
fn git_answers_become_values_or_errors() {
    let g = Git::new("git".to_string(), &ok_output("/repo\n")).unwrap();
    assert_eq!(g.repo_path(), "/repo");
    assert!(matches!(Git::new("git".to_string(), &failed_output("x")), Err(AppError::NotGitRepository)));
    assert_eq!(Git::resolve_ref("main", &ok_output("abc\n")).unwrap(), "abc");
    assert!(matches!(Git::resolve_ref("nope", &ok_output("\n")), Err(AppError::UnknownRevision(r)) if r == "nope"));
    assert!(matches!(Git::resolve_ref("invalid-branch", &failed_output("fatal")), Err(AppError::UnknownRevision(r)) if r == "invalid-branch"));
    assert_eq!(
        Git::resolve_ref("invalid-branch", &failed_output("fatal")).unwrap_err().message(),
        "Unknown revision 'invalid-branch'"
    );
    assert!(matches!(Git::show("c1", "p", &failed_output("x")), Err(AppError::FileGetFailed { path, commit }) if path == "p" && commit == "c1"));
    assert_eq!(Git::show("c1", "p", &ok_output("data")).unwrap(), b"data".to_vec());
    assert!(matches!(Git::resolve_git_path(Some("/no/git"), false, None, None), Err(AppError::GitNotFound)));
    assert_eq!(Git::resolve_git_path(None, false, Some(&ok_output("/usr/bin/git\n")), None).unwrap(), "/usr/bin/git");
    assert!(matches!(Git::fetch_ref("v1", &failed_output("fatal: couldn't find remote ref v1")), Err(AppError::RemoteRefFetchFailed(r)) if r == "v1"));
    assert!(matches!(
        Git::clone_remote("git".to_string(), "https://host.example/r.git", "/tmp/c", &failed_output("Could not resolve host: host.example")),
        Err(AppError::HostResolveFailed(h)) if h == "host.example"
    ));
    assert!(matches!(
        Git::clone_remote("git".to_string(), "https://h/r.git", "/tmp/c", &failed_output("Authentication failed")),
        Err(AppError::AuthenticationFailed(u)) if u == "https://h/r.git"
    ));
    assert!(matches!(
        Git::clone_remote("git".to_string(), "https://h/r.git", "/tmp/c", &failed_output("other")),
        Err(AppError::CloneFailed(_))
    ));
}

#[test]
fn git_listings_are_parsed() {
    let files = Git::diff_name_status(&ok_output("M\ta.txt\nR090\told.txt\tnew.txt\n\nX\tbad\n")).unwrap();
    assert_eq!(files.len(), 2);
    assert_eq!(files[1].original_path.as_deref(), Some("old.txt"));
    assert_eq!(files[1].similarity, Some(90));
    let l = Git::ls_tree_recursive(&ok_output("100644 blob aaa\tx.txt\n100755 blob bbb\ty/z.sh\n")).unwrap();
    assert_eq!(l.get("y/z.sh"), Some(("100755".to_string(), "bbb".to_string())));
    assert_eq!(Git::ls_tree(&ok_output("100644 blob aaa\tx.txt\n")).unwrap(), Some("100644".to_string()));
    assert_eq!(Git::ls_tree(&ok_output("")).unwrap(), None);
}

#[test]
fn listing_insert_replaces() {
    let mut l = listing(&[("a", "1", "x")]);
    l.insert("a".to_string(), "2".to_string(), "y".to_string());
    assert_eq!(l.entries.len(), 1);
    assert_eq!(l.get("a"), Some(("2".to_string(), "y".to_string())));
    assert_eq!(l.get("b"), None);
}

#[test]
fn error_messages() {
    assert_eq!(AppError::OutputExists("o".to_string()).message(), "Output directory 'o' already exists. Use --force to overwrite.");
    assert_eq!(AppError::InvalidGlobPattern("[".to_string()).message(), "Invalid glob pattern '['");
    assert_eq!(AppError::ThreeWayRequiresBase.message(), "Three-way mode requires --base option");
}

// ---- settings ----

fn cli() -> Cli {
    Cli {
        source: Some("main".to_string()),
        target: Some("dev".to_string()),
        output: Some("out".to_string()),
        repository: None,
        full_clone: false,
        cache_dir: None,
        config: None,
        git_path: None,
        exclude: vec![],
        force: false,
        summary: None,
        verbose: false,
        dry_run: false,
        both_versions: false,
        check_permissions: PermissionCheckMode::Off,
        patch: false,
        patch_file: None,
        excel: None,
        excel_fold_level: None,
        show_unchanged: false,
        save_config: None,
        filter_status: vec![],
        stats_only: false,
        no_tree: false,
        no_details: false,
        copy_deleted: false,
        preserve_timestamps: false,
        workers: None,
        temp_dir: None,
        color: ColorMode::Auto,
        log_level: LogLevel::Warn,
        three_way: false,
        base: None,
        merge_style: MergeStyle::All,
        conflict_only: false,
    }
}

#[test]
fn saved_settings_merge_back_to_the_same() {
    let mut c = cli();
    c.exclude = vec!["*.o".to_string()];
    c.both_versions = true;
    let merged = MergedConfig::merge(&c, None, &AppSettings::default(), 3).unwrap();
    let saved = merged.to_input_config();
    let mut blank = cli();
    blank.source = None;
    blank.target = None;
    blank.output = None;
    let again = MergedConfig::merge(&blank, Some(&saved), &AppSettings::default(), 3).unwrap();
    assert_eq!(again.source, merged.source);
    assert_eq!(again.output, merged.output);
    assert_eq!(again.exclude, merged.exclude);
    assert_eq!(again.both_versions, merged.both_versions);
    assert_eq!(again.workers, 3);
}

#[test]
fn missing_fields_are_named() {
    let mut c = cli();
    c.source = None;
    match MergedConfig::merge(&c, Some(&InputConfig::default()), &AppSettings::default(), 1) {
        Err(AppError::MissingRequiredField(f)) => assert_eq!(f, "source"),
        other => panic!("unexpected {:?}", other.map(|_| ())),
    }
}

fn same_statuses(a: &[ThreeWayStatus], b: &[ThreeWayStatus]) -> bool {
    a.len() == b.len() && a.iter().all(|x| b.contains(x))
}

#[test]
fn filter_ignores_order_case_and_blanks() {
    let f = vec!["added".to_string(), "^added-both-diff".to_string(), "deleted-ours".to_string()];
    let g = vec![" DELETED-ours ".to_string(), "^Added-Both-Diff".to_string(), "added".to_string(), "ADDED".to_string()];
    let a = expand_filter_status_three_way(&f);
    let b = expand_filter_status_three_way(&g);
    assert!(same_statuses(&a, &b));
    assert!(a.contains(&ThreeWayStatus::AddedOurs));
    assert!(!a.contains(&ThreeWayStatus::AddedBothDiff));
    assert!(a.contains(&ThreeWayStatus::DeletedOurs));
}

#[test]
fn tag_names_parse_back_in_any_case() {
    for s in [
        FileStatus::Added,
        FileStatus::Modified,
        FileStatus::Deleted,
        FileStatus::Renamed,
        FileStatus::Copied,
        FileStatus::TypeChanged,
        FileStatus::Unchanged,
    ] {
        let t = s.tag();
        let name = &t[1..t.len() - 1];
        assert_eq!(FileStatus::from_filter_str(name), Some(s));
        assert_eq!(FileStatus::from_filter_str(&name.to_uppercase()), Some(s));
    }
}

#[test]
fn three_way_names_parse_back() {
    for s in [
        ThreeWayStatus::Unchanged,
        ThreeWayStatus::OursOnly,
        ThreeWayStatus::TheirsOnly,
        ThreeWayStatus::BothSame,
        ThreeWayStatus::AddedOurs,
        ThreeWayStatus::AddedTheirs,
        ThreeWayStatus::AddedBothSame,
        ThreeWayStatus::DeletedOurs,
        ThreeWayStatus::DeletedTheirs,
        ThreeWayStatus::DeletedBoth,
    ] {
        let t = s.tag();
        assert_eq!(ThreeWayStatus::from_filter_str(t), Some(s));
        assert_eq!(ThreeWayStatus::from_filter_str(&t.to_uppercase()), Some(s));
        assert_eq!(ThreeWayStatus::from_filter_str(&t.replace('-', "_")), Some(s));
    }
}

#[test]
fn group_words_are_no_status_words() {
    for w in ["added", "modified", "deleted", "conflicts", "all", "ADDED", "Conflicts"] {
        assert!(rs_gitdiffcopy::types::FilterGroup::from_str(w).is_some());
        assert_eq!(ThreeWayStatus::from_filter_str(w), None);
    }
    for w in ["unchanged", "ours-only", "conflict", "added-ours", "deleted-both", "delete-modify"] {
        assert!(ThreeWayStatus::from_filter_str(w).is_some());
        assert!(rs_gitdiffcopy::types::FilterGroup::from_str(w).is_none());
    }
}
