use rs_gitdiffcopy::config::MergedConfig;
use rs_gitdiffcopy::summary::{display_width, SummaryWriter};
use rs_gitdiffcopy::tree::TreeNode;
use rs_gitdiffcopy::types::{
    ColorMode, DiffFile, FileStatus, LogLevel, MergeStyle, PermissionCheckMode, Statistics, ThreeWayStatistics,
};
fn create_test_config() -> MergedConfig {
    MergedConfig {
        repository: None,
        git_path: None,
        full_clone: false,
        cache_dir: None,
        source: "main".to_string(),
        target: "develop".to_string(),
        output: String::from("/tmp/output"),
        exclude: vec![],
        force: false,
        verbose: false,
        dry_run: false,
        both_versions: false,
        summary: None,
        check_permissions: PermissionCheckMode::Off,
        patch: false,
        patch_file: None,
        excel: None,
        excel_fold_level: None,
        show_unchanged: false,
        filter_status: vec![],
        stats_only: false,
        no_tree: false,
        no_details: false,
        copy_deleted: false,
        preserve_timestamps: false,
        workers: 4,
        temp_dir: None,
        color: ColorMode::Never,
        log_level: LogLevel::Warn,
        three_way: false,
        base: None,
        merge_style: MergeStyle::All,
        conflict_only: false,
    }
}

fn create_test_file(path: &str, status: FileStatus) -> DiffFile {
    DiffFile::new(String::from(path), status)
}

// format_status_tag without color
#[test]
fn test_format_status_tag_added_no_color() {
    let config = create_test_config();
    let writer = SummaryWriter::new(&config);
    let file = create_test_file("file.txt", FileStatus::Added);
    let tag = writer.format_status_tag(&file, false);
    assert_eq!(tag, "[added]");
    assert!(!tag.contains("\x1b[")); // no ANSI escape code
}

#[test]
fn test_format_status_tag_modified_no_color() {
    let config = create_test_config();
    let writer = SummaryWriter::new(&config);
    let file = create_test_file("file.txt", FileStatus::Modified);
    let tag = writer.format_status_tag(&file, false);
    assert_eq!(tag, "[modified]");
    assert!(!tag.contains("\x1b["));
}

#[test]
fn test_format_status_tag_deleted_no_color() {
    let config = create_test_config();
    let writer = SummaryWriter::new(&config);
    let file = create_test_file("file.txt", FileStatus::Deleted);
    let tag = writer.format_status_tag(&file, false);
    assert_eq!(tag, "[deleted]");
    assert!(!tag.contains("\x1b["));
}

#[test]
fn test_format_status_tag_renamed_no_color() {
    let config = create_test_config();
    let writer = SummaryWriter::new(&config);
    let file = create_test_file("file.txt", FileStatus::Renamed);
    let tag = writer.format_status_tag(&file, false);
    assert_eq!(tag, "[renamed]");
    assert!(!tag.contains("\x1b["));
}

#[test]
fn test_format_status_tag_copied_no_color() {
    let config = create_test_config();
    let writer = SummaryWriter::new(&config);
    let file = create_test_file("file.txt", FileStatus::Copied);
    let tag = writer.format_status_tag(&file, false);
    assert_eq!(tag, "[copied]");
    assert!(!tag.contains("\x1b["));
}

#[test]
fn test_format_status_tag_type_changed_no_color() {
    let config = create_test_config();
    let writer = SummaryWriter::new(&config);
    let file = create_test_file("file.txt", FileStatus::TypeChanged);
    let tag = writer.format_status_tag(&file, false);
    assert_eq!(tag, "[type-changed]");
    assert!(!tag.contains("\x1b["));
}

#[test]
fn test_format_status_tag_unchanged_no_color() {
    let config = create_test_config();
    let writer = SummaryWriter::new(&config);
    let file = create_test_file("file.txt", FileStatus::Unchanged);
    let tag = writer.format_status_tag(&file, false);
    assert_eq!(tag, "[unchanged]");
    assert!(!tag.contains("\x1b["));
}

// format_status_tag with color
#[test]
fn test_format_status_tag_added_with_color() {
    let config = create_test_config();
    let writer = SummaryWriter::new(&config);
    let file = create_test_file("file.txt", FileStatus::Added);
    let tag = writer.format_status_tag(&file, true);
    // With color, ANSI escape codes are present
    assert!(tag.contains("[added]"));
}

// build_tree
#[test]
fn test_build_tree_single_file() {
    let config = create_test_config();
    let writer = SummaryWriter::new(&config);
    let files = vec![create_test_file("file.txt", FileStatus::Added)];
    let tree = writer.build_tree(&files);
    assert!(tree.contains_key("file.txt"));
}

#[test]
fn test_build_tree_nested_file() {
    let config = create_test_config();
    let writer = SummaryWriter::new(&config);
    let files = vec![create_test_file("src/main.rs", FileStatus::Added)];
    let tree = writer.build_tree(&files);
    assert!(tree.contains_key("src"));
    if let Some(TreeNode::Dir(children)) = tree.get("src") {
        assert!(children.contains_key("main.rs"));
    } else {
        panic!("Expected directory node");
    }
}

#[test]
fn test_build_tree_multiple_files_same_dir() {
    let config = create_test_config();
    let writer = SummaryWriter::new(&config);
    let files = vec![
        create_test_file("src/main.rs", FileStatus::Added),
        create_test_file("src/lib.rs", FileStatus::Modified),
    ];
    let tree = writer.build_tree(&files);
    if let Some(TreeNode::Dir(children)) = tree.get("src") {
        assert!(children.contains_key("main.rs"));
        assert!(children.contains_key("lib.rs"));
    } else {
        panic!("Expected directory node");
    }
}

#[test]
fn test_build_tree_deep_nesting() {
    let config = create_test_config();
    let writer = SummaryWriter::new(&config);
    let files = vec![create_test_file("a/b/c/d/file.txt", FileStatus::Added)];
    let tree = writer.build_tree(&files);
    assert!(tree.contains_key("a"));
}

#[test]
fn test_build_tree_japanese_path() {
    let config = create_test_config();
    let writer = SummaryWriter::new(&config);
    let files = vec![create_test_file("日本語/ファイル.txt", FileStatus::Added)];
    let tree = writer.build_tree(&files);
    assert!(tree.contains_key("日本語"));
}

// calculate_max_tree_width
#[test]
fn test_calculate_max_tree_width_single_file() {
    let config = create_test_config();
    let writer = SummaryWriter::new(&config);
    let files = vec![create_test_file("file.txt", FileStatus::Added)];
    let tree = writer.build_tree(&files);
    let width = writer.calculate_max_tree_width(&tree, "");
    // width of "├── file.txt"
    assert!(width > 0);
}

#[test]
fn test_calculate_max_tree_width_long_filename() {
    let config = create_test_config();
    let writer = SummaryWriter::new(&config);
    let files = vec![
        create_test_file("short.txt", FileStatus::Added),
        create_test_file("very_long_filename_that_should_be_longer.txt", FileStatus::Added),
    ];
    let tree = writer.build_tree(&files);
    let width = writer.calculate_max_tree_width(&tree, "");
    // The width of the longest name is used
    assert!(width > 20);
}

#[test]
fn test_calculate_max_tree_width_nested_long() {
    let config = create_test_config();
    let writer = SummaryWriter::new(&config);
    let files = vec![
        create_test_file("a.txt", FileStatus::Added),
        create_test_file("dir/very_long_nested_filename.txt", FileStatus::Added),
    ];
    let tree = writer.build_tree(&files);
    let width = writer.calculate_max_tree_width(&tree, "");
    // The width of nested files is used
    assert!(width > 20);
}

#[test]
fn test_calculate_max_tree_width_japanese() {
    let config = create_test_config();
    let writer = SummaryWriter::new(&config);
    let files = vec![
        create_test_file("a.txt", FileStatus::Added),
        create_test_file("日本語ディレクトリ/日本語ファイル名.txt", FileStatus::Added),
    ];
    let tree = writer.build_tree(&files);
    let width = writer.calculate_max_tree_width(&tree, "");
    // Japanese text is twice as wide
    assert!(width > 20);
}

// Statistics
#[test]
fn summary_test_statistics_total() {
    let stats = Statistics {
        added: 5,
        modified: 3,
        deleted: 2,
        renamed: 1,
        copied: 0,
        type_changed: 0,
        unchanged: 10,
        symlinks: 1,
        submodules: 0,
        permission_changes: 1,
        errors: 0,
        copy_failed: 0,
    };
    assert_eq!(stats.total(), 21);
}

// ThreeWayStatistics
#[test]
fn summary_test_three_way_statistics_total() {
    let stats = ThreeWayStatistics {
        unchanged: 10,
        ours_only: 5,
        theirs_only: 3,
        both_same: 2,
        conflict: 1,
        added_ours: 2,
        added_theirs: 1,
        added_both_same: 1,
        added_both_diff: 1,
        deleted_ours: 1,
        deleted_theirs: 1,
        deleted_both: 1,
        modify_delete: 0,
        delete_modify: 0,
    };
    assert_eq!(stats.total(), 29);
}

#[test]
fn summary_test_three_way_statistics_conflicts() {
    let stats = ThreeWayStatistics {
        unchanged: 10,
        ours_only: 5,
        theirs_only: 3,
        both_same: 2,
        conflict: 3,
        added_ours: 2,
        added_theirs: 1,
        added_both_same: 1,
        added_both_diff: 2,
        deleted_ours: 1,
        deleted_theirs: 1,
        deleted_both: 1,
        modify_delete: 1,
        delete_modify: 1,
    };
    // conflict + added_both_diff + modify_delete + delete_modify = 3 + 2 + 1 + 1 = 7
    assert_eq!(stats.conflicts(), 7);
}

// display_width
#[test]
fn test_display_width_ascii() {
    // ASCII characters are one column wide
    assert_eq!(display_width("abc"), 3);
    assert_eq!(display_width("hello world"), 11);
}

#[test]
fn test_display_width_japanese() {
    // Japanese characters are two columns wide
    assert_eq!(display_width("日本語"), 6);
    assert_eq!(display_width("ファイル"), 8);
}

#[test]
fn test_display_width_box_drawing() {
    // Box drawing characters (U+2500-U+257F) count as two columns
    // ├ = U+251C, └ = U+2514, │ = U+2502, ─ = U+2500
    assert_eq!(display_width("├"), 2);
    assert_eq!(display_width("└"), 2);
    assert_eq!(display_width("│"), 2);
    assert_eq!(display_width("─"), 2);
    assert_eq!(display_width("├──"), 6); // 3 characters x 2 = 6
    // │(2) + space(1) + space(1) + space(1) + ├(2) + ─(2) + ─(2) = 11
    assert_eq!(display_width("│   ├──"), 11);
}

#[test]
fn test_display_width_mixed() {
    // ASCII + Box Drawing
    assert_eq!(display_width("├── file.txt"), 2 + 2 + 2 + 1 + 8); // ├(2) + ─(2) + ─(2) + space(1) + "file.txt"(8) = 15
    // Japanese and box drawing
    assert_eq!(display_width("├── 日本語.txt"), 2 + 2 + 2 + 1 + 6 + 4); // ├── + space + three wide characters (6) + .txt (4) = 17
}

#[test]
fn test_display_width_empty() {
    assert_eq!(display_width(""), 0);
}

#[test]
fn test_display_width_tree_prefix() {
    // The prefixes the tree display uses
    // "│   " = │(2) + space(1) + space(1) + space(1) = 5
    assert_eq!(display_width("│   "), 5);
    // "    " = 4 spaces = 4
    assert_eq!(display_width("    "), 4);
    // "├── " = ├(2) + ─(2) + ─(2) + space(1) = 7
    assert_eq!(display_width("├── "), 7);
    // "└── " = └(2) + ─(2) + ─(2) + space(1) = 7
    assert_eq!(display_width("└── "), 7);
}
