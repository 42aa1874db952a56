use rs_gitdiffcopy::copy::FileCopier;
use rs_gitdiffcopy::types::ThreeWayStatus;

// add_extension
#[test]
fn test_add_extension_simple() {
    let path = "file.txt";
    let result = FileCopier::add_extension(path, "old");
    assert_eq!(result, String::from("file.txt.old"));
}

#[test]
fn test_add_extension_with_path() {
    let path = "path/to/file.txt";
    let result = FileCopier::add_extension(path, "new");
    assert_eq!(result, String::from("path/to/file.txt.new"));
}

#[test]
fn test_add_extension_deleted() {
    let path = "config.toml";
    let result = FileCopier::add_extension(path, "deleted");
    assert_eq!(result, String::from("config.toml.deleted"));
}

#[test]
fn test_add_extension_no_original_extension() {
    let path = "Makefile";
    let result = FileCopier::add_extension(path, "old");
    assert_eq!(result, String::from("Makefile.old"));
}

#[test]
fn test_add_extension_dotfile() {
    let path = ".gitignore";
    let result = FileCopier::add_extension(path, "old");
    assert_eq!(result, String::from(".gitignore.old"));
}

#[test]
fn test_add_extension_double_extension() {
    let path = "archive.tar.gz";
    let result = FileCopier::add_extension(path, "old");
    assert_eq!(result, String::from("archive.tar.gz.old"));
}

#[test]
fn test_add_extension_japanese_filename() {
    let path = "日本語/ファイル.txt";
    let result = FileCopier::add_extension(path, "old");
    assert_eq!(result, String::from("日本語/ファイル.txt.old"));
}

#[test]
fn test_add_extension_base() {
    let path = "conflict_file.rs";
    let result = FileCopier::add_extension(path, "base");
    assert_eq!(result, String::from("conflict_file.rs.base"));
}

#[test]
fn test_add_extension_ours() {
    let path = "conflict_file.rs";
    let result = FileCopier::add_extension(path, "ours");
    assert_eq!(result, String::from("conflict_file.rs.ours"));
}

#[test]
fn test_add_extension_theirs() {
    let path = "conflict_file.rs";
    let result = FileCopier::add_extension(path, "theirs");
    assert_eq!(result, String::from("conflict_file.rs.theirs"));
}

// ThreeWayStatus::is_conflict
#[test]
fn test_three_way_status_is_conflict_true() {
    assert!(ThreeWayStatus::Conflict.is_conflict());
    assert!(ThreeWayStatus::AddedBothDiff.is_conflict());
    assert!(ThreeWayStatus::ModifyDelete.is_conflict());
    assert!(ThreeWayStatus::DeleteModify.is_conflict());
}

#[test]
fn test_three_way_status_is_conflict_false() {
    assert!(!ThreeWayStatus::Unchanged.is_conflict());
    assert!(!ThreeWayStatus::OursOnly.is_conflict());
    assert!(!ThreeWayStatus::TheirsOnly.is_conflict());
    assert!(!ThreeWayStatus::BothSame.is_conflict());
    assert!(!ThreeWayStatus::AddedOurs.is_conflict());
    assert!(!ThreeWayStatus::AddedTheirs.is_conflict());
    assert!(!ThreeWayStatus::AddedBothSame.is_conflict());
    assert!(!ThreeWayStatus::DeletedOurs.is_conflict());
    assert!(!ThreeWayStatus::DeletedTheirs.is_conflict());
    assert!(!ThreeWayStatus::DeletedBoth.is_conflict());
}
