//! The workbook of a comparison, checked on the records git reports for
//! small repositories.

use rs_gitdiffcopy::config::MergedConfig;
use rs_gitdiffcopy::diff::DiffDetector;
use rs_gitdiffcopy::excel::{CellValue, ExcelWriter, SheetPlan};
use rs_gitdiffcopy::types::{ColorMode, DiffFile, FileStatus, LogLevel, MergeStyle, PermissionCheckMode};

const SOURCE: &str = "1111111111111111111111111111111111111111";
const TARGET: &str = "2222222222222222222222222222222222222222";

fn report_config(exclude: Vec<String>) -> MergedConfig {
    MergedConfig {
        repository: None,
        git_path: None,
        full_clone: false,
        cache_dir: None,
        source: SOURCE.to_string(),
        target: TARGET.to_string(),
        output: "./output".to_string(),
        exclude,
        force: false,
        verbose: false,
        dry_run: false,
        both_versions: false,
        summary: None,
        check_permissions: PermissionCheckMode::Off,
        patch: false,
        patch_file: None,
        excel: Some("report.xlsx".to_string()),
        excel_fold_level: None,
        show_unchanged: false,
        filter_status: vec![],
        stats_only: false,
        no_tree: false,
        no_details: false,
        copy_deleted: false,
        preserve_timestamps: false,
        workers: 4,
        temp_dir: None,
        color: ColorMode::Never,
        log_level: LogLevel::Warn,
        three_way: false,
        base: None,
        merge_style: MergeStyle::All,
        conflict_only: false,
    }
}

/// The sheets written for the given changes.
fn workbook(c: &MergedConfig, changes: &[(&str, FileStatus)]) -> Vec<SheetPlan> {
    let files: Vec<DiffFile> = changes.iter().map(|(p, s)| DiffFile::new(p.to_string(), *s)).collect();
    let stats = DiffDetector::calculate_statistics(&files);
    ExcelWriter::new(c).write_two_way(&files, &stats, &c.source, SOURCE, &c.target, TARGET, "/repo")
}

fn texts(sheet: &SheetPlan) -> Vec<String> {
    sheet
        .cells
        .iter()
        .map(|cell| match &cell.value {
            CellValue::Text(t) => t.clone(),
            CellValue::Number(n) => n.to_string(),
        })
        .collect()
}

fn sheet<'a>(sheets: &'a [SheetPlan], part: &str) -> &'a SheetPlan {
    sheets.iter().find(|s| s.name.contains(part)).expect("sheet present")
}

#[test]
fn test_excel_has_correct_sheets() {
    let c = report_config(vec![]);
    let sheets = workbook(&c, &[("file.txt", FileStatus::Modified)]);
    assert!(!sheets.is_empty(), "Excel should have sheets");
    let names: Vec<&str> = sheets.iter().map(|s| s.name.as_str()).collect();
    let has_expected_sheet =
        names.iter().any(|s| s.contains("Summary") || s.contains("File") || s.contains("Detail"));
    assert!(has_expected_sheet, "Excel should have expected sheets: {:?}", names);
    assert_eq!(names, vec!["Summary", "File Tree", "Details"]);
}

#[test]
fn test_excel_summary_statistics() {
    let c = report_config(vec![]);
    let sheets = workbook(&c, &[("file1.txt", FileStatus::Modified), ("file2.txt", FileStatus::Added)]);
    let summary = texts(sheet(&sheets, "Summary"));
    let has_stats = summary.iter().any(|s| s.contains("Added") || s.contains("Modified") || s.contains("Total"));
    assert!(has_stats, "Summary should have statistics");
}

#[test]
fn test_excel_file_tree_entries() {
    let c = report_config(vec![]);
    let sheets = workbook(&c, &[("src/lib.rs", FileStatus::Added), ("src/main.rs", FileStatus::Added)]);
    let tree = texts(sheet(&sheets, "Tree"));
    let has_files = tree.iter().any(|s| s.contains("main.rs") || s.contains("lib.rs") || s.contains("src"));
    assert!(has_files, "File Tree should contain file entries");
}

#[test]
fn test_excel_japanese_filenames() {
    let c = report_config(vec![]);
    let sheets = workbook(
        &c,
        &[("テスト/サブファイル.txt", FileStatus::Added), ("日本語ファイル.txt", FileStatus::Added)],
    );
    let found_japanese =
        sheets.iter().any(|sh| texts(sh).iter().any(|s| s.contains("日本語") || s.contains("テスト")));
    assert!(found_japanese, "Excel should contain Japanese filenames");
}

#[test]
fn test_excel_summary_has_options_section() {
    let c = report_config(vec!["*.log".to_string()]);
    let sheets = workbook(&c, &[("file.txt", FileStatus::Modified)]);
    let summary = texts(sheet(&sheets, "Summary"));
    let has_content = summary.iter().any(|s| {
        s.contains("Options")
            || s.contains("Exclude")
            || s.contains("Source")
            || s.contains("Target")
            || s.contains("Dry")
            || s.contains("*.log")
    });
    assert!(has_content, "Summary should have Options or basic info section");
}

#[test]
fn test_excel_summary_has_statistics_section() {
    let c = report_config(vec![]);
    let sheets = workbook(&c, &[("file.txt", FileStatus::Modified)]);
    let summary = texts(sheet(&sheets, "Summary"));
    let has_stats = summary.iter().any(|s| s.contains("Statistics") || s.contains("Total") || s.contains("Added"));
    assert!(has_stats, "Summary should have Statistics section");
}

#[test]
fn test_excel_details_has_header() {
    let c = report_config(vec![]);
    let sheets = workbook(&c, &[("file.txt", FileStatus::Modified)]);
    let details = sheet(&sheets, "Detail");
    let first_row = details.cells.iter().filter(|cell| cell.row == 0).count();
    assert!(first_row >= 1, "Details should have header columns");
}

#[test]
fn test_excel_summary_has_labels() {
    let c = report_config(vec![]);
    let sheets = workbook(&c, &[("file.txt", FileStatus::Modified)]);
    let summary = texts(sheet(&sheets, "Summary"));
    let has_labels = summary.iter().any(|s| s.contains("Source") || s.contains("Target") || s.contains("Output"));
    assert!(has_labels, "Summary should have Source/Target/Output labels");
}
