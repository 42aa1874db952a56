//! The options given on the command line.

use vstd::prelude::*;
use crate::types::{ColorMode, LogLevel, MergeStyle, PermissionCheckMode};

verus! {

/// The options given on the command line.
#[derive(Debug, Clone)]
pub struct Cli {
    pub source: Option<String>,
    pub target: Option<String>,
    pub output: Option<String>,
    pub repository: Option<String>,
    pub full_clone: bool,
    pub cache_dir: Option<String>,
    pub config: Option<String>,
    pub git_path: Option<String>,
    pub exclude: Vec<String>,
    pub force: bool,
    pub summary: Option<String>,
    pub verbose: bool,
    pub dry_run: bool,
    pub both_versions: bool,
    pub check_permissions: PermissionCheckMode,
    pub patch: bool,
    pub patch_file: Option<String>,
    pub excel: Option<String>,
    pub excel_fold_level: Option<u32>,
    pub show_unchanged: bool,
    pub save_config: Option<String>,
    pub filter_status: Vec<String>,
    pub stats_only: bool,
    pub no_tree: bool,
    pub no_details: bool,
    pub copy_deleted: bool,
    pub preserve_timestamps: bool,
    pub workers: Option<usize>,
    pub temp_dir: Option<String>,
    pub color: ColorMode,
    pub log_level: LogLevel,
    pub three_way: bool,
    pub base: Option<String>,
    pub merge_style: MergeStyle,
    pub conflict_only: bool,
}

} // verus!
