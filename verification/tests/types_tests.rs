use rs_gitdiffcopy::types::{
    expand_filter_status_three_way, ColorMode, DiffFile, FileStatus, FilterGroup, LogLevel, MergeStyle,
    PermissionCheckMode, Statistics, ThreeWayStatistics, ThreeWayStatus,
};
// ========================================
// FileStatus
// ========================================

#[test]
fn test_file_status_from_git_status() {
    assert_eq!(FileStatus::from_git_status("A"), Some(FileStatus::Added));
    assert_eq!(FileStatus::from_git_status("M"), Some(FileStatus::Modified));
    assert_eq!(FileStatus::from_git_status("D"), Some(FileStatus::Deleted));
    assert_eq!(FileStatus::from_git_status("R100"), Some(FileStatus::Renamed));
    assert_eq!(FileStatus::from_git_status("C50"), Some(FileStatus::Copied));
    assert_eq!(FileStatus::from_git_status("T"), Some(FileStatus::TypeChanged));
    assert_eq!(FileStatus::from_git_status("X"), None);
    assert_eq!(FileStatus::from_git_status(""), None);
}

#[test]
fn test_file_status_tag() {
    assert_eq!(FileStatus::Added.tag(), "[added]");
    assert_eq!(FileStatus::Modified.tag(), "[modified]");
    assert_eq!(FileStatus::Deleted.tag(), "[deleted]");
    assert_eq!(FileStatus::Renamed.tag(), "[renamed]");
    assert_eq!(FileStatus::Copied.tag(), "[copied]");
    assert_eq!(FileStatus::TypeChanged.tag(), "[type-changed]");
    assert_eq!(FileStatus::Unchanged.tag(), "[unchanged]");
}

#[test]
fn test_file_status_from_filter_str() {
    // Exact names
    assert_eq!(FileStatus::from_filter_str("added"), Some(FileStatus::Added));
    assert_eq!(FileStatus::from_filter_str("modified"), Some(FileStatus::Modified));
    assert_eq!(FileStatus::from_filter_str("deleted"), Some(FileStatus::Deleted));
    assert_eq!(FileStatus::from_filter_str("renamed"), Some(FileStatus::Renamed));
    assert_eq!(FileStatus::from_filter_str("copied"), Some(FileStatus::Copied));
    assert_eq!(FileStatus::from_filter_str("type-changed"), Some(FileStatus::TypeChanged));
    assert_eq!(FileStatus::from_filter_str("unchanged"), Some(FileStatus::Unchanged));

    // Letter case
    assert_eq!(FileStatus::from_filter_str("ADDED"), Some(FileStatus::Added));
    assert_eq!(FileStatus::from_filter_str("Added"), Some(FileStatus::Added));

    // Aliases
    assert_eq!(FileStatus::from_filter_str("add"), Some(FileStatus::Added));
    assert_eq!(FileStatus::from_filter_str("a"), Some(FileStatus::Added));
    assert_eq!(FileStatus::from_filter_str("modify"), Some(FileStatus::Modified));
    assert_eq!(FileStatus::from_filter_str("m"), Some(FileStatus::Modified));
    assert_eq!(FileStatus::from_filter_str("delete"), Some(FileStatus::Deleted));
    assert_eq!(FileStatus::from_filter_str("d"), Some(FileStatus::Deleted));

    // Invalid values
    assert_eq!(FileStatus::from_filter_str("invalid"), None);
    assert_eq!(FileStatus::from_filter_str(""), None);
}

// ========================================
// ThreeWayStatus
// ========================================

#[test]
fn test_three_way_status_is_conflict() {
    assert!(ThreeWayStatus::Conflict.is_conflict());
    assert!(ThreeWayStatus::AddedBothDiff.is_conflict());
    assert!(ThreeWayStatus::ModifyDelete.is_conflict());
    assert!(ThreeWayStatus::DeleteModify.is_conflict());

    assert!(!ThreeWayStatus::Unchanged.is_conflict());
    assert!(!ThreeWayStatus::OursOnly.is_conflict());
    assert!(!ThreeWayStatus::TheirsOnly.is_conflict());
    assert!(!ThreeWayStatus::BothSame.is_conflict());
    assert!(!ThreeWayStatus::AddedOurs.is_conflict());
    assert!(!ThreeWayStatus::AddedTheirs.is_conflict());
    assert!(!ThreeWayStatus::AddedBothSame.is_conflict());
    assert!(!ThreeWayStatus::DeletedOurs.is_conflict());
    assert!(!ThreeWayStatus::DeletedTheirs.is_conflict());
    assert!(!ThreeWayStatus::DeletedBoth.is_conflict());
}

#[test]
fn test_three_way_status_tag() {
    assert_eq!(ThreeWayStatus::Unchanged.tag(), "unchanged");
    assert_eq!(ThreeWayStatus::OursOnly.tag(), "ours-only");
    assert_eq!(ThreeWayStatus::TheirsOnly.tag(), "theirs-only");
    assert_eq!(ThreeWayStatus::BothSame.tag(), "both-same");
    assert_eq!(ThreeWayStatus::Conflict.tag(), "CONFLICT");
    assert_eq!(ThreeWayStatus::AddedBothDiff.tag(), "CONFLICT");
    assert_eq!(ThreeWayStatus::ModifyDelete.tag(), "CONFLICT");
    assert_eq!(ThreeWayStatus::DeleteModify.tag(), "CONFLICT");
}

// ========================================
// DiffFile
// ========================================

#[test]
fn test_diff_file_new() {
    let file = DiffFile::new("test.txt".to_string(), FileStatus::Modified);
    assert_eq!(file.path, "test.txt".to_string());
    assert_eq!(file.status, FileStatus::Modified);
    assert!(file.original_path.is_none());
    assert!(file.similarity.is_none());
    assert!(!file.is_symlink);
    assert!(!file.is_submodule);
}

#[test]
fn test_diff_file_is_permission_only_change() {
    let mut file = DiffFile::new("test.txt".to_string(), FileStatus::Modified);

    // Only the permissions changed (same blob)
    file.source_mode = Some("100644".to_string());
    file.target_mode = Some("100755".to_string());
    file.source_blob = Some("abc123".to_string());
    file.target_blob = Some("abc123".to_string());
    assert!(file.is_permission_only_change());

    // The content changed too
    file.target_blob = Some("def456".to_string());
    assert!(!file.is_permission_only_change());
}

// ========================================
// PermissionCheckMode
// ========================================

#[test]
fn test_permission_check_mode_from_str() {

    assert_eq!(PermissionCheckMode::from_str("none").unwrap(), PermissionCheckMode::Off);
    assert_eq!(PermissionCheckMode::from_str("scripts").unwrap(), PermissionCheckMode::Scripts);
    assert_eq!(PermissionCheckMode::from_str("all").unwrap(), PermissionCheckMode::All);
    assert_eq!(PermissionCheckMode::from_str("NONE").unwrap(), PermissionCheckMode::Off);
    assert_eq!(PermissionCheckMode::from_str("SCRIPTS").unwrap(), PermissionCheckMode::Scripts);
    assert_eq!(PermissionCheckMode::from_str("ALL").unwrap(), PermissionCheckMode::All);

    assert!(PermissionCheckMode::from_str("invalid").is_err());
}

// ========================================
// MergeStyle
// ========================================

#[test]
fn test_merge_style_from_str() {

    assert_eq!(MergeStyle::from_str("all").unwrap(), MergeStyle::All);
    assert_eq!(MergeStyle::from_str("ours").unwrap(), MergeStyle::Ours);
    assert_eq!(MergeStyle::from_str("theirs").unwrap(), MergeStyle::Theirs);
    assert_eq!(MergeStyle::from_str("ALL").unwrap(), MergeStyle::All);

    assert!(MergeStyle::from_str("invalid").is_err());
}

// ========================================
// ColorMode
// ========================================

#[test]
fn test_color_mode_from_str() {

    assert_eq!(ColorMode::from_str("auto").unwrap(), ColorMode::Auto);
    assert_eq!(ColorMode::from_str("always").unwrap(), ColorMode::Always);
    assert_eq!(ColorMode::from_str("never").unwrap(), ColorMode::Never);
    assert_eq!(ColorMode::from_str("AUTO").unwrap(), ColorMode::Auto);

    assert!(ColorMode::from_str("invalid").is_err());
}

// ========================================
// LogLevel
// ========================================

#[test]
fn test_log_level_from_str() {

    assert_eq!(LogLevel::from_str("error").unwrap(), LogLevel::Error);
    assert_eq!(LogLevel::from_str("warn").unwrap(), LogLevel::Warn);
    assert_eq!(LogLevel::from_str("info").unwrap(), LogLevel::Info);
    assert_eq!(LogLevel::from_str("debug").unwrap(), LogLevel::Debug);
    assert_eq!(LogLevel::from_str("ERROR").unwrap(), LogLevel::Error);

    assert!(LogLevel::from_str("invalid").is_err());
}

#[test]
fn test_log_level_to_filter() {
    assert_eq!(log::LevelFilter::from(LogLevel::Error), log::LevelFilter::Error);
    assert_eq!(log::LevelFilter::from(LogLevel::Warn), log::LevelFilter::Warn);
    assert_eq!(log::LevelFilter::from(LogLevel::Info), log::LevelFilter::Info);
    assert_eq!(log::LevelFilter::from(LogLevel::Debug), log::LevelFilter::Debug);
}

// ========================================
// Statistics
// ========================================

#[test]
fn types_test_statistics_total() {
    let mut stats = Statistics::default();
    stats.added = 5;
    stats.modified = 3;
    stats.deleted = 2;
    stats.renamed = 1;
    stats.copied = 1;
    stats.type_changed = 1;
    stats.unchanged = 10;

    assert_eq!(stats.total(), 23);
}

// ========================================
// ThreeWayStatistics
// ========================================

#[test]
fn types_test_three_way_statistics_total() {
    let mut stats = ThreeWayStatistics::default();
    stats.unchanged = 10;
    stats.ours_only = 2;
    stats.theirs_only = 3;
    stats.both_same = 1;
    stats.conflict = 1;

    assert_eq!(stats.total(), 17);
}

#[test]
fn types_test_three_way_statistics_conflicts() {
    let mut stats = ThreeWayStatistics::default();
    stats.conflict = 2;
    stats.added_both_diff = 1;
    stats.modify_delete = 1;
    stats.delete_modify = 1;

    assert_eq!(stats.conflicts(), 5);
}

// ========================================
// ThreeWayStatus::from_filter_str
// ========================================

#[test]
fn test_three_way_status_from_filter_str() {
    // Exact names (kebab-case)
    assert_eq!(ThreeWayStatus::from_filter_str("unchanged"), Some(ThreeWayStatus::Unchanged));
    assert_eq!(ThreeWayStatus::from_filter_str("ours-only"), Some(ThreeWayStatus::OursOnly));
    assert_eq!(ThreeWayStatus::from_filter_str("theirs-only"), Some(ThreeWayStatus::TheirsOnly));
    assert_eq!(ThreeWayStatus::from_filter_str("both-same"), Some(ThreeWayStatus::BothSame));
    assert_eq!(ThreeWayStatus::from_filter_str("conflict"), Some(ThreeWayStatus::Conflict));
    assert_eq!(ThreeWayStatus::from_filter_str("added-ours"), Some(ThreeWayStatus::AddedOurs));
    assert_eq!(ThreeWayStatus::from_filter_str("added-theirs"), Some(ThreeWayStatus::AddedTheirs));
    assert_eq!(ThreeWayStatus::from_filter_str("added-both-same"), Some(ThreeWayStatus::AddedBothSame));
    assert_eq!(ThreeWayStatus::from_filter_str("added-both-diff"), Some(ThreeWayStatus::AddedBothDiff));
    assert_eq!(ThreeWayStatus::from_filter_str("deleted-ours"), Some(ThreeWayStatus::DeletedOurs));
    assert_eq!(ThreeWayStatus::from_filter_str("deleted-theirs"), Some(ThreeWayStatus::DeletedTheirs));
    assert_eq!(ThreeWayStatus::from_filter_str("deleted-both"), Some(ThreeWayStatus::DeletedBoth));
    assert_eq!(ThreeWayStatus::from_filter_str("modify-delete"), Some(ThreeWayStatus::ModifyDelete));
    assert_eq!(ThreeWayStatus::from_filter_str("delete-modify"), Some(ThreeWayStatus::DeleteModify));
}

#[test]
fn test_three_way_status_from_filter_str_case_insensitive() {
    assert_eq!(ThreeWayStatus::from_filter_str("OURS-ONLY"), Some(ThreeWayStatus::OursOnly));
    assert_eq!(ThreeWayStatus::from_filter_str("Ours-Only"), Some(ThreeWayStatus::OursOnly));
    assert_eq!(ThreeWayStatus::from_filter_str("CONFLICT"), Some(ThreeWayStatus::Conflict));
}

#[test]
fn test_three_way_status_from_filter_str_underscore() {
    // Underscore form
    assert_eq!(ThreeWayStatus::from_filter_str("ours_only"), Some(ThreeWayStatus::OursOnly));
    assert_eq!(ThreeWayStatus::from_filter_str("added_ours"), Some(ThreeWayStatus::AddedOurs));
    assert_eq!(ThreeWayStatus::from_filter_str("deleted_both"), Some(ThreeWayStatus::DeletedBoth));
}

#[test]
fn test_three_way_status_from_filter_str_invalid() {
    assert_eq!(ThreeWayStatus::from_filter_str("invalid"), None);
    assert_eq!(ThreeWayStatus::from_filter_str(""), None);
    assert_eq!(ThreeWayStatus::from_filter_str("added"), None); // group keywords are not statuses
}

#[test]
fn test_three_way_status_all() {
    let all = ThreeWayStatus::all();
    assert_eq!(all.len(), 14);
    assert!(all.contains(&ThreeWayStatus::Unchanged));
    assert!(all.contains(&ThreeWayStatus::Conflict));
    assert!(all.contains(&ThreeWayStatus::AddedOurs));
    assert!(all.contains(&ThreeWayStatus::DeleteModify));
}

// ========================================
// FilterGroup
// ========================================

#[test]
fn test_filter_group_from_str() {
    assert_eq!(FilterGroup::from_str("added"), Some(FilterGroup::Added));
    assert_eq!(FilterGroup::from_str("modified"), Some(FilterGroup::Modified));
    assert_eq!(FilterGroup::from_str("deleted"), Some(FilterGroup::Deleted));
    assert_eq!(FilterGroup::from_str("conflicts"), Some(FilterGroup::Conflicts));
    assert_eq!(FilterGroup::from_str("all"), Some(FilterGroup::All));
    assert_eq!(FilterGroup::from_str("ADDED"), Some(FilterGroup::Added));
    assert_eq!(FilterGroup::from_str("invalid"), None);
}

#[test]
fn test_filter_group_expand_added() {
    let statuses = FilterGroup::Added.expand();
    assert_eq!(statuses.len(), 4);
    assert!(statuses.contains(&ThreeWayStatus::AddedOurs));
    assert!(statuses.contains(&ThreeWayStatus::AddedTheirs));
    assert!(statuses.contains(&ThreeWayStatus::AddedBothSame));
    assert!(statuses.contains(&ThreeWayStatus::AddedBothDiff));
}

#[test]
fn test_filter_group_expand_modified() {
    let statuses = FilterGroup::Modified.expand();
    assert_eq!(statuses.len(), 4);
    assert!(statuses.contains(&ThreeWayStatus::OursOnly));
    assert!(statuses.contains(&ThreeWayStatus::TheirsOnly));
    assert!(statuses.contains(&ThreeWayStatus::BothSame));
    assert!(statuses.contains(&ThreeWayStatus::Conflict));
}

#[test]
fn test_filter_group_expand_deleted() {
    let statuses = FilterGroup::Deleted.expand();
    assert_eq!(statuses.len(), 3);
    assert!(statuses.contains(&ThreeWayStatus::DeletedOurs));
    assert!(statuses.contains(&ThreeWayStatus::DeletedTheirs));
    assert!(statuses.contains(&ThreeWayStatus::DeletedBoth));
}

#[test]
fn test_filter_group_expand_conflicts() {
    let statuses = FilterGroup::Conflicts.expand();
    assert_eq!(statuses.len(), 4);
    assert!(statuses.contains(&ThreeWayStatus::Conflict));
    assert!(statuses.contains(&ThreeWayStatus::AddedBothDiff));
    assert!(statuses.contains(&ThreeWayStatus::ModifyDelete));
    assert!(statuses.contains(&ThreeWayStatus::DeleteModify));
}

#[test]
fn test_filter_group_expand_all() {
    let statuses = FilterGroup::All.expand();
    assert_eq!(statuses.len(), 14);
}

// ========================================
// expand_filter_status_three_way
// ========================================

#[test]
fn test_expand_filter_status_three_way_empty() {
    let result = expand_filter_status_three_way(&[]);
    assert_eq!(result.len(), 14); // every status
}

#[test]
fn test_expand_filter_status_three_way_single_status() {
    let result = expand_filter_status_three_way(&["conflict".to_string()]);
    assert_eq!(result.len(), 1);
    assert!(result.contains(&ThreeWayStatus::Conflict));
}

#[test]
fn test_expand_filter_status_three_way_group_added() {
    let result = expand_filter_status_three_way(&["added".to_string()]);
    assert_eq!(result.len(), 4);
    assert!(result.contains(&ThreeWayStatus::AddedOurs));
    assert!(result.contains(&ThreeWayStatus::AddedTheirs));
    assert!(result.contains(&ThreeWayStatus::AddedBothSame));
    assert!(result.contains(&ThreeWayStatus::AddedBothDiff));
}

#[test]
fn test_expand_filter_status_three_way_group_conflicts() {
    let result = expand_filter_status_three_way(&["conflicts".to_string()]);
    assert_eq!(result.len(), 4);
    assert!(result.contains(&ThreeWayStatus::Conflict));
    assert!(result.contains(&ThreeWayStatus::AddedBothDiff));
    assert!(result.contains(&ThreeWayStatus::ModifyDelete));
    assert!(result.contains(&ThreeWayStatus::DeleteModify));
}

#[test]
fn test_expand_filter_status_three_way_exclude() {
    // ^added: every status but the added group
    let result = expand_filter_status_three_way(&["^added".to_string()]);
    assert_eq!(result.len(), 10); // 14 - 4 = 10
    assert!(!result.contains(&ThreeWayStatus::AddedOurs));
    assert!(!result.contains(&ThreeWayStatus::AddedTheirs));
    assert!(!result.contains(&ThreeWayStatus::AddedBothSame));
    assert!(!result.contains(&ThreeWayStatus::AddedBothDiff));
    assert!(result.contains(&ThreeWayStatus::Unchanged));
    assert!(result.contains(&ThreeWayStatus::Conflict));
}

#[test]
fn test_expand_filter_status_three_way_all_exclude() {
    // all,^deleted: every status but the deleted group
    let result = expand_filter_status_three_way(&["all".to_string(), "^deleted".to_string()]);
    assert_eq!(result.len(), 11); // 14 - 3 = 11
    assert!(!result.contains(&ThreeWayStatus::DeletedOurs));
    assert!(!result.contains(&ThreeWayStatus::DeletedTheirs));
    assert!(!result.contains(&ThreeWayStatus::DeletedBoth));
}

#[test]
fn test_expand_filter_status_three_way_multiple_groups() {
    // added,modified: the added and modified groups
    let result = expand_filter_status_three_way(&["added".to_string(), "modified".to_string()]);
    assert_eq!(result.len(), 8); // 4 + 4 = 8
    assert!(result.contains(&ThreeWayStatus::AddedOurs));
    assert!(result.contains(&ThreeWayStatus::OursOnly));
}

#[test]
fn test_expand_filter_status_three_way_exclude_conflicts() {
    // all,^conflicts: everything but the conflicts
    let result = expand_filter_status_three_way(&["all".to_string(), "^conflicts".to_string()]);
    assert_eq!(result.len(), 10); // 14 - 4 = 10
    assert!(!result.contains(&ThreeWayStatus::Conflict));
    assert!(!result.contains(&ThreeWayStatus::AddedBothDiff));
    assert!(!result.contains(&ThreeWayStatus::ModifyDelete));
    assert!(!result.contains(&ThreeWayStatus::DeleteModify));
}

#[test]
fn test_expand_filter_status_three_way_mixed_include_exclude() {
    // added,^added-both-diff: the added group without added-both-diff
    let result = expand_filter_status_three_way(&["added".to_string(), "^added-both-diff".to_string()]);
    assert_eq!(result.len(), 3); // 4 - 1 = 3
    assert!(result.contains(&ThreeWayStatus::AddedOurs));
    assert!(result.contains(&ThreeWayStatus::AddedTheirs));
    assert!(result.contains(&ThreeWayStatus::AddedBothSame));
    assert!(!result.contains(&ThreeWayStatus::AddedBothDiff));
}
