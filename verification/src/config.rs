//! Command-line options, the two settings files, and how they combine.

use vstd::prelude::*;
use crate::cli::Cli;
use crate::error::{AppError, ErrorView};
use crate::types::{ColorMode, LogLevel, MergeStyle, PermissionCheckMode};
use crate::text::{chars_of, string_of};

verus! {

/// The settings file that sits beside the executable.
#[derive(Debug, Clone)]
pub struct AppSettings {
    pub git_path: Option<String>,
    pub cache_dir: Option<String>,
    pub temp_dir: Option<String>,
    pub workers: Option<usize>,
    pub full_clone: Option<bool>,
    pub color: Option<ColorMode>,
    pub log_level: Option<LogLevel>,
    pub default_exclude: Vec<String>,
}

/// The settings file given with `--config`.
#[derive(Debug, Clone)]
pub struct InputConfig {
    pub repository: Option<String>,
    pub git_path: Option<String>,
    pub full_clone: Option<bool>,
    pub cache_dir: Option<String>,
    pub source: Option<String>,
    pub target: Option<String>,
    pub output: Option<String>,
    pub exclude: Vec<String>,
    pub force: Option<bool>,
    pub verbose: Option<bool>,
    pub dry_run: Option<bool>,
    pub both_versions: Option<bool>,
    pub summary: Option<String>,
    pub check_permissions: Option<PermissionCheckMode>,
    pub patch: Option<bool>,
    pub patch_file: Option<String>,
    pub excel: Option<String>,
    pub excel_fold_level: Option<u32>,
    pub show_unchanged: Option<bool>,
    pub filter_status: Vec<String>,
    pub stats_only: Option<bool>,
    pub no_tree: Option<bool>,
    pub no_details: Option<bool>,
    pub copy_deleted: Option<bool>,
    pub preserve_timestamps: Option<bool>,
    pub workers: Option<usize>,
    pub temp_dir: Option<String>,
    pub color: Option<ColorMode>,
    pub log_level: Option<LogLevel>,
    pub three_way: Option<bool>,
    pub base: Option<String>,
    pub merge_style: Option<MergeStyle>,
    pub conflict_only: Option<bool>,
}

/// The settings in effect.
#[derive(Debug, Clone)]
pub struct MergedConfig {
    pub repository: Option<String>,
    pub git_path: Option<String>,
    pub full_clone: bool,
    pub cache_dir: Option<String>,
    pub source: String,
    pub target: String,
    pub output: String,
    pub exclude: Vec<String>,
    pub force: bool,
    pub verbose: bool,
    pub dry_run: bool,
    pub both_versions: bool,
    pub summary: Option<String>,
    pub check_permissions: PermissionCheckMode,
    pub patch: bool,
    pub patch_file: Option<String>,
    pub excel: Option<String>,
    pub excel_fold_level: Option<u32>,
    pub show_unchanged: bool,
    pub filter_status: Vec<String>,
    pub stats_only: bool,
    pub no_tree: bool,
    pub no_details: bool,
    pub copy_deleted: bool,
    pub preserve_timestamps: bool,
    pub workers: usize,
    pub temp_dir: Option<String>,
    pub color: ColorMode,
    pub log_level: LogLevel,
    pub three_way: bool,
    pub base: Option<String>,
    pub merge_style: MergeStyle,
    pub conflict_only: bool,
}

/// The first value present.
pub open spec fn either<T>(a: Option<T>, b: Option<T>) -> Option<T> {
    match a {
        Some(x) => Some(x),
        None => b,
    }
}

/// A field of the `--config` file, when there is one.
pub open spec fn from_input<T>(input: Option<&InputConfig>, f: spec_fn(InputConfig) -> Option<T>) -> Option<T> {
    match input {
        Some(c) => f(*c),
        None => None,
    }
}

/// An optional switch that is on.
pub open spec fn on(b: Option<bool>) -> bool {
    b == Some(true)
}

/// The texts of a list of strings.
pub open spec fn texts(v: Seq<String>) -> Seq<Seq<char>> {
    v.map_values(|s: String| s@)
}

/// The exclusion patterns of the `--config` file, or none.
pub open spec fn input_excludes(input: Option<&InputConfig>) -> Seq<String> {
    match input {
        Some(c) => c.exclude@,
        None => Seq::empty(),
    }
}

/// The status filters of the `--config` file, or none.
pub open spec fn input_filters(input: Option<&InputConfig>) -> Seq<String> {
    match input {
        Some(c) => c.filter_status@,
        None => Seq::empty(),
    }
}

/// Three-way mode is on, on the command line or in the `--config` file.
pub open spec fn merged_three_way(cli: Cli, input: Option<&InputConfig>) -> bool {
    cli.three_way || on(from_input(input, |c: InputConfig| c.three_way))
}

/// Why the settings cannot be merged, if they cannot: a missing source,
/// target or output (looked for in that order), or three-way mode without a base.
pub open spec fn merge_failure(cli: Cli, input: Option<&InputConfig>) -> Option<ErrorView> {
    if either(cli.source, from_input(input, |c: InputConfig| c.source)) is None {
        Some(ErrorView::MissingRequiredField("source"@))
    } else if either(cli.target, from_input(input, |c: InputConfig| c.target)) is None {
        Some(ErrorView::MissingRequiredField("target"@))
    } else if either(cli.output, from_input(input, |c: InputConfig| c.output)) is None {
        Some(ErrorView::MissingRequiredField("output"@))
    } else if merged_three_way(cli, input) && either(cli.base, from_input(input, |c: InputConfig| c.base))
        is None {
        Some(ErrorView::ThreeWayRequiresBase)
    } else {
        None
    }
}

/// The merged settings: each comes from the command line, else from the
/// `--config` file, else from the application settings (for those it has),
/// else its default; switches are on when any source turns them on;
/// exclusion patterns are those of all three sources, application settings
/// first; status filters of the command line replace those of the file; a
/// mode, color or log level given on the command line counts only when it is
/// not the default; the worker count falls back to `default_workers`.
pub open spec fn merged_as(
    cli: Cli,
    input: Option<&InputConfig>,
    app: AppSettings,
    default_workers: usize,
    c: MergedConfig,
) -> bool {
    &&& c.repository == either(cli.repository, from_input(input, |i: InputConfig| i.repository))
    &&& c.git_path == either(
        either(cli.git_path, from_input(input, |i: InputConfig| i.git_path)),
        app.git_path,
    )
    &&& c.full_clone == (cli.full_clone || on(from_input(input, |i: InputConfig| i.full_clone)) || on(
        app.full_clone,
    ))
    &&& c.cache_dir == either(
        either(cli.cache_dir, from_input(input, |i: InputConfig| i.cache_dir)),
        app.cache_dir,
    )
    &&& Some(c.source) == either(cli.source, from_input(input, |i: InputConfig| i.source))
    &&& Some(c.target) == either(cli.target, from_input(input, |i: InputConfig| i.target))
    &&& Some(c.output) == either(cli.output, from_input(input, |i: InputConfig| i.output))
    &&& c.exclude@ == app.default_exclude@ + input_excludes(input) + cli.exclude@
    &&& c.force == (cli.force || on(from_input(input, |i: InputConfig| i.force)))
    &&& c.verbose == (cli.verbose || on(from_input(input, |i: InputConfig| i.verbose)))
    &&& c.dry_run == (cli.dry_run || on(from_input(input, |i: InputConfig| i.dry_run)))
    &&& c.both_versions == (cli.both_versions || on(from_input(input, |i: InputConfig| i.both_versions)))
    &&& c.summary == either(cli.summary, from_input(input, |i: InputConfig| i.summary))
    &&& c.check_permissions == (if cli.check_permissions != PermissionCheckMode::Off {
        cli.check_permissions
    } else {
        either(from_input(input, |i: InputConfig| i.check_permissions), Some(PermissionCheckMode::Off)).unwrap()
    })
    &&& c.patch == (cli.patch || on(from_input(input, |i: InputConfig| i.patch)))
    &&& c.patch_file == either(cli.patch_file, from_input(input, |i: InputConfig| i.patch_file))
    &&& c.excel == either(cli.excel, from_input(input, |i: InputConfig| i.excel))
    &&& c.excel_fold_level == either(cli.excel_fold_level, from_input(input, |i: InputConfig| i.excel_fold_level))
    &&& c.show_unchanged == (cli.show_unchanged || on(from_input(input, |i: InputConfig| i.show_unchanged)))
    &&& c.filter_status@ == (if cli.filter_status@.len() > 0 {
        cli.filter_status@
    } else {
        input_filters(input)
    })
    &&& c.stats_only == (cli.stats_only || on(from_input(input, |i: InputConfig| i.stats_only)))
    &&& c.no_tree == (cli.no_tree || on(from_input(input, |i: InputConfig| i.no_tree)))
    &&& c.no_details == (cli.no_details || on(from_input(input, |i: InputConfig| i.no_details)))
    &&& c.copy_deleted == (cli.copy_deleted || on(from_input(input, |i: InputConfig| i.copy_deleted)))
    &&& c.preserve_timestamps == (cli.preserve_timestamps || on(
        from_input(input, |i: InputConfig| i.preserve_timestamps),
    ))
    &&& c.workers == either(
        either(either(cli.workers, from_input(input, |i: InputConfig| i.workers)), app.workers),
        Some(default_workers),
    ).unwrap()
    &&& c.temp_dir == either(
        either(cli.temp_dir, from_input(input, |i: InputConfig| i.temp_dir)),
        app.temp_dir,
    )
    &&& c.color == (if cli.color != ColorMode::Auto {
        cli.color
    } else {
        either(either(from_input(input, |i: InputConfig| i.color), app.color), Some(ColorMode::Auto)).unwrap()
    })
    &&& c.log_level == (if cli.log_level != LogLevel::Warn {
        cli.log_level
    } else {
        either(either(from_input(input, |i: InputConfig| i.log_level), app.log_level), Some(LogLevel::Warn)).unwrap()
    })
    &&& c.three_way == merged_three_way(cli, input)
    &&& c.base == either(cli.base, from_input(input, |i: InputConfig| i.base))
    &&& c.merge_style == (if cli.merge_style != MergeStyle::All {
        cli.merge_style
    } else {
        either(from_input(input, |i: InputConfig| i.merge_style), Some(MergeStyle::All)).unwrap()
    })
    &&& c.conflict_only == (cli.conflict_only || on(from_input(input, |i: InputConfig| i.conflict_only)))
}

/// A copy of an optional string.
fn copy_opt(o: &Option<String>) -> (r: Option<String>)
    ensures
        r == *o,
{
    match o {
        Some(s) => Some(s.clone()),
        None => None,
    }
}

/// The first of two optional strings that is present.
fn pick(a: &Option<String>, b: &Option<String>) -> (r: Option<String>)
    ensures
        r == either(*a, *b),
{
    match a {
        Some(s) => Some(s.clone()),
        None => copy_opt(b),
    }
}

/// Appends copies of the given strings.
fn extend_strings(out: &mut Vec<String>, more: &Vec<String>)
    ensures
        final(out)@ == old(out)@ + more@,
{
    let ghost start = out@;
    let mut i: usize = 0;
    while i < more.len()
        invariant
            i <= more@.len(),
            out@ == start + more@.take(i as int),
        decreases more@.len() - i,
    {
        out.push(more[i].clone());
        assert(start + more@.take(i + 1) =~= (start + more@.take(i as int)).push(more@[i as int]));
        i += 1;
    }
    assert(more@.take(more@.len() as int) =~= more@);
}

/// Copies of the given strings.
fn copy_strings(v: &Vec<String>) -> (r: Vec<String>)
    ensures
        r@ == v@,
{
    let mut r: Vec<String> = Vec::new();
    extend_strings(&mut r, v);
    assert(Seq::<String>::empty() + v@ =~= v@);
    r
}

/// The string of a literal.
fn text(s: &str) -> (r: String)
    ensures
        r@ == s@,
{
    let cs = chars_of(s);
    string_of(&cs)
}

/// An optional switch that is on.
fn is_on(b: Option<bool>) -> (r: bool)
    ensures
        r == on(b),
{
    match b {
        Some(x) => x,
        None => false,
    }
}

impl MergedConfig {
    /// Combines the command line, the `--config` file and the application
    /// settings; `default_workers` is the worker count used when none of
    /// them gives one (the number of processors where it is known).
    pub fn merge(
        cli: &Cli,
        input_config: Option<&InputConfig>,
        app_settings: &AppSettings,
        default_workers: usize,
    ) -> (r: Result<MergedConfig, AppError>)
        ensures
            match merge_failure(*cli, input_config) {
                Some(e) => r matches Err(x) && x@ == e,
                None => r matches Ok(c) && merged_as(*cli, input_config, *app_settings, default_workers, c),
            },
    {
        let (in_source, in_target, in_output, in_three_way, in_base) = match input_config {
            Some(c) => (copy_opt(&c.source), copy_opt(&c.target), copy_opt(&c.output), is_on(c.three_way), copy_opt(&c.base)),
            None => (None, None, None, false, None),
        };
        let source = match pick(&cli.source, &in_source) {
            Some(s) => s,
            None => return Err(AppError::MissingRequiredField(text("source"))),
        };
        let target = match pick(&cli.target, &in_target) {
            Some(s) => s,
            None => return Err(AppError::MissingRequiredField(text("target"))),
        };
        let output = match pick(&cli.output, &in_output) {
            Some(s) => s,
            None => return Err(AppError::MissingRequiredField(text("output"))),
        };
        let three_way = cli.three_way || in_three_way;
        let base = pick(&cli.base, &in_base);
        if three_way && base.is_none() {
            return Err(AppError::ThreeWayRequiresBase);
        }
        let mut exclude = copy_strings(&app_settings.default_exclude);
        match input_config {
            Some(c) => extend_strings(&mut exclude, &c.exclude),
            None => {},
        }
        extend_strings(&mut exclude, &cli.exclude);
        proof {
            match input_config {
                Some(c) => {},
                None => {
                    assert(app_settings.default_exclude@ + Seq::<String>::empty() =~= app_settings.default_exclude@);
                },
            }
        }
        match input_config {
            Some(c) => Ok(merge_with_input(cli, c, app_settings, default_workers, source, target, output, exclude, three_way, base)),
            None => Ok(merge_without_input(cli, app_settings, default_workers, source, target, output, exclude, three_way, base)),
        }
    }
}


/// The merged settings when a `--config` file was read.
#[verifier::rlimit(40)]
fn merge_with_input(
    cli: &Cli,
    c: &InputConfig,
    app_settings: &AppSettings,
    default_workers: usize,
    source: String,
    target: String,
    output: String,
    exclude: Vec<String>,
    three_way: bool,
    base: Option<String>,
) -> (r: MergedConfig)
    requires
        Some(source) == either(cli.source, c.source),
        Some(target) == either(cli.target, c.target),
        Some(output) == either(cli.output, c.output),
        exclude@ == app_settings.default_exclude@ + c.exclude@ + cli.exclude@,
        three_way == (cli.three_way || on(c.three_way)),
        base == either(cli.base, c.base),
    ensures
        merged_as(*cli, Some(c), *app_settings, default_workers, r),
{
    let filter_status = if cli.filter_status.len() > 0 {
        copy_strings(&cli.filter_status)
    } else {
        copy_strings(&c.filter_status)
    };
    let workers = match cli.workers {
        Some(w) => w,
        None => match c.workers {
            Some(w) => w,
            None => match app_settings.workers {
                Some(w) => w,
                None => default_workers,
            },
        },
    };
    MergedConfig {
        repository: pick(&cli.repository, &c.repository),
        git_path: match pick(&cli.git_path, &c.git_path) {
            Some(p) => Some(p),
            None => copy_opt(&app_settings.git_path),
        },
        full_clone: cli.full_clone || is_on(c.full_clone) || is_on(app_settings.full_clone),
        cache_dir: match pick(&cli.cache_dir, &c.cache_dir) {
            Some(p) => Some(p),
            None => copy_opt(&app_settings.cache_dir),
        },
        source,
        target,
        output,
        exclude,
        force: cli.force || is_on(c.force),
        verbose: cli.verbose || is_on(c.verbose),
        dry_run: cli.dry_run || is_on(c.dry_run),
        both_versions: cli.both_versions || is_on(c.both_versions),
        summary: pick(&cli.summary, &c.summary),
        check_permissions: if cli.check_permissions != PermissionCheckMode::Off {
            cli.check_permissions
        } else {
            match c.check_permissions {
                Some(m) => m,
                None => PermissionCheckMode::Off,
            }
        },
        patch: cli.patch || is_on(c.patch),
        patch_file: pick(&cli.patch_file, &c.patch_file),
        excel: pick(&cli.excel, &c.excel),
        excel_fold_level: match cli.excel_fold_level {
            Some(l) => Some(l),
            None => c.excel_fold_level,
        },
        show_unchanged: cli.show_unchanged || is_on(c.show_unchanged),
        filter_status,
        stats_only: cli.stats_only || is_on(c.stats_only),
        no_tree: cli.no_tree || is_on(c.no_tree),
        no_details: cli.no_details || is_on(c.no_details),
        copy_deleted: cli.copy_deleted || is_on(c.copy_deleted),
        preserve_timestamps: cli.preserve_timestamps || is_on(c.preserve_timestamps),
        workers,
        temp_dir: match pick(&cli.temp_dir, &c.temp_dir) {
            Some(p) => Some(p),
            None => copy_opt(&app_settings.temp_dir),
        },
        color: if cli.color != ColorMode::Auto {
            cli.color
        } else {
            match c.color {
                Some(m) => m,
                None => match app_settings.color {
                    Some(m) => m,
                    None => ColorMode::Auto,
                },
            }
        },
        log_level: if cli.log_level != LogLevel::Warn {
            cli.log_level
        } else {
            match c.log_level {
                Some(l) => l,
                None => match app_settings.log_level {
                    Some(l) => l,
                    None => LogLevel::Warn,
                },
            }
        },
        three_way,
        base,
        merge_style: if cli.merge_style != MergeStyle::All {
            cli.merge_style
        } else {
            match c.merge_style {
                Some(m) => m,
                None => MergeStyle::All,
            }
        },
        conflict_only: cli.conflict_only || is_on(c.conflict_only),
    }
}

/// The merged settings when no `--config` file was read.
#[verifier::rlimit(40)]
fn merge_without_input(
    cli: &Cli,
    app_settings: &AppSettings,
    default_workers: usize,
    source: String,
    target: String,
    output: String,
    exclude: Vec<String>,
    three_way: bool,
    base: Option<String>,
) -> (r: MergedConfig)
    requires
        Some(source) == cli.source,
        Some(target) == cli.target,
        Some(output) == cli.output,
        exclude@ == app_settings.default_exclude@ + cli.exclude@,
        three_way == cli.three_way,
        base == cli.base,
    ensures
        merged_as(*cli, None, *app_settings, default_workers, r),
{
    let filter_status = copy_strings(&cli.filter_status);
    assert(cli.filter_status@.len() == 0 ==> cli.filter_status@ =~= Seq::<String>::empty());
    let workers = match cli.workers {
        Some(w) => w,
        None => match app_settings.workers {
            Some(w) => w,
            None => default_workers,
        },
    };
    MergedConfig {
        repository: copy_opt(&cli.repository),
        git_path: pick(&cli.git_path, &app_settings.git_path),
        full_clone: cli.full_clone || is_on(app_settings.full_clone),
        cache_dir: pick(&cli.cache_dir, &app_settings.cache_dir),
        source,
        target,
        output,
        exclude,
        force: cli.force,
        verbose: cli.verbose,
        dry_run: cli.dry_run,
        both_versions: cli.both_versions,
        summary: copy_opt(&cli.summary),
        check_permissions: cli.check_permissions,
        patch: cli.patch,
        patch_file: copy_opt(&cli.patch_file),
        excel: copy_opt(&cli.excel),
        excel_fold_level: cli.excel_fold_level,
        show_unchanged: cli.show_unchanged,
        filter_status,
        stats_only: cli.stats_only,
        no_tree: cli.no_tree,
        no_details: cli.no_details,
        copy_deleted: cli.copy_deleted,
        preserve_timestamps: cli.preserve_timestamps,
        workers,
        temp_dir: pick(&cli.temp_dir, &app_settings.temp_dir),
        color: if cli.color != ColorMode::Auto {
            cli.color
        } else {
            match app_settings.color {
                Some(m) => m,
                None => ColorMode::Auto,
            }
        },
        log_level: if cli.log_level != LogLevel::Warn {
            cli.log_level
        } else {
            match app_settings.log_level {
                Some(l) => l,
                None => LogLevel::Warn,
            }
        },
        three_way,
        base,
        merge_style: cli.merge_style,
        conflict_only: cli.conflict_only,
    }
}


/// `saved` records every setting of `c`, as `--save-config` writes it.
pub open spec fn saved_settings(c: MergedConfig, saved: InputConfig) -> bool {
    &&& saved.repository == c.repository
    &&& saved.git_path == c.git_path
    &&& saved.full_clone == Some(c.full_clone)
    &&& saved.cache_dir == c.cache_dir
    &&& saved.source == Some(c.source)
    &&& saved.target == Some(c.target)
    &&& saved.output == Some(c.output)
    &&& saved.exclude@ == c.exclude@
    &&& saved.force == Some(c.force)
    &&& saved.verbose == Some(c.verbose)
    &&& saved.dry_run == Some(c.dry_run)
    &&& saved.both_versions == Some(c.both_versions)
    &&& saved.summary == c.summary
    &&& saved.check_permissions == Some(c.check_permissions)
    &&& saved.patch == Some(c.patch)
    &&& saved.patch_file == c.patch_file
    &&& saved.excel == c.excel
    &&& saved.excel_fold_level == c.excel_fold_level
    &&& saved.show_unchanged == Some(c.show_unchanged)
    &&& saved.filter_status@ == c.filter_status@
    &&& saved.stats_only == Some(c.stats_only)
    &&& saved.no_tree == Some(c.no_tree)
    &&& saved.no_details == Some(c.no_details)
    &&& saved.copy_deleted == Some(c.copy_deleted)
    &&& saved.preserve_timestamps == Some(c.preserve_timestamps)
    &&& saved.workers == Some(c.workers)
    &&& saved.temp_dir == c.temp_dir
    &&& saved.color == Some(c.color)
    &&& saved.log_level == Some(c.log_level)
    &&& saved.three_way == Some(c.three_way)
    &&& saved.base == c.base
    &&& saved.merge_style == Some(c.merge_style)
    &&& saved.conflict_only == Some(c.conflict_only)
}

impl MergedConfig {
    /// The settings as a `--config` file records them, every setting written out.
    pub fn to_input_config(&self) -> (r: InputConfig)
        ensures
            saved_settings(*self, r),
    {
        InputConfig {
            repository: copy_opt(&self.repository),
            git_path: copy_opt(&self.git_path),
            full_clone: Some(self.full_clone),
            cache_dir: copy_opt(&self.cache_dir),
            source: Some(self.source.clone()),
            target: Some(self.target.clone()),
            output: Some(self.output.clone()),
            exclude: copy_strings(&self.exclude),
            force: Some(self.force),
            verbose: Some(self.verbose),
            dry_run: Some(self.dry_run),
            both_versions: Some(self.both_versions),
            summary: copy_opt(&self.summary),
            check_permissions: Some(self.check_permissions),
            patch: Some(self.patch),
            patch_file: copy_opt(&self.patch_file),
            excel: copy_opt(&self.excel),
            excel_fold_level: self.excel_fold_level,
            show_unchanged: Some(self.show_unchanged),
            filter_status: copy_strings(&self.filter_status),
            stats_only: Some(self.stats_only),
            no_tree: Some(self.no_tree),
            no_details: Some(self.no_details),
            copy_deleted: Some(self.copy_deleted),
            preserve_timestamps: Some(self.preserve_timestamps),
            workers: Some(self.workers),
            temp_dir: copy_opt(&self.temp_dir),
            color: Some(self.color),
            log_level: Some(self.log_level),
            three_way: Some(self.three_way),
            base: copy_opt(&self.base),
            merge_style: Some(self.merge_style),
            conflict_only: Some(self.conflict_only),
        }
    }
}

/// A command line that sets nothing: every option absent, off or at its default.
pub open spec fn blank_cli(cli: Cli) -> bool {
    &&& cli.source is None && cli.target is None && cli.output is None && cli.repository is None
    &&& !cli.full_clone && cli.cache_dir is None && cli.git_path is None && cli.exclude@.len() == 0
    &&& !cli.force && cli.summary is None && !cli.verbose && !cli.dry_run && !cli.both_versions
    &&& cli.check_permissions == PermissionCheckMode::Off && !cli.patch && cli.patch_file is None
    &&& cli.excel is None && cli.excel_fold_level is None && !cli.show_unchanged
    &&& cli.filter_status@.len() == 0 && !cli.stats_only && !cli.no_tree && !cli.no_details
    &&& !cli.copy_deleted && !cli.preserve_timestamps && cli.workers is None && cli.temp_dir is None
    &&& cli.color == ColorMode::Auto && cli.log_level == LogLevel::Warn && !cli.three_way
    &&& cli.base is None && cli.merge_style == MergeStyle::All && !cli.conflict_only
}

/// Application settings that set nothing.
pub open spec fn blank_settings(app: AppSettings) -> bool {
    &&& app.git_path is None && app.cache_dir is None && app.temp_dir is None && app.workers is None
    &&& app.full_clone is None && app.color is None && app.log_level is None
    &&& app.default_exclude@.len() == 0
}

/// Saving merged settings and running again with only the saved file gives
/// back the same settings: the saved file is complete and merging it changes
/// nothing. (Settings that come out of a merge always have a base in
/// three-way mode.)
pub proof fn law_saved_config_round_trip(
    c: MergedConfig,
    saved: InputConfig,
    cli: Cli,
    app: AppSettings,
    default_workers: usize,
)
    requires
        saved_settings(c, saved),
        blank_cli(cli),
        blank_settings(app),
        c.three_way ==> c.base is Some,
    ensures
        merge_failure(cli, Some(&saved)) is None,
        merged_as(cli, Some(&saved), app, default_workers, c),
{
    assert(app.default_exclude@ + saved.exclude@ + cli.exclude@ =~= c.exclude@);
}

impl Default for AppSettings {
    fn default() -> (r: Self)
        ensures
            blank_settings(r),
    {
        AppSettings {
            git_path: None,
            cache_dir: None,
            temp_dir: None,
            workers: None,
            full_clone: None,
            color: None,
            log_level: None,
            default_exclude: Vec::new(),
        }
    }
}

/// A `--config` file that sets nothing.
pub open spec fn blank_input(i: InputConfig) -> bool {
    &&& i.repository is None && i.git_path is None && i.full_clone is None && i.cache_dir is None
    &&& i.source is None && i.target is None && i.output is None && i.exclude@.len() == 0
    &&& i.force is None && i.verbose is None && i.dry_run is None && i.both_versions is None
    &&& i.summary is None && i.check_permissions is None && i.patch is None && i.patch_file is None
    &&& i.excel is None && i.excel_fold_level is None && i.show_unchanged is None
    &&& i.filter_status@.len() == 0 && i.stats_only is None && i.no_tree is None
    &&& i.no_details is None && i.copy_deleted is None && i.preserve_timestamps is None
    &&& i.workers is None && i.temp_dir is None && i.color is None && i.log_level is None
    &&& i.three_way is None && i.base is None && i.merge_style is None && i.conflict_only is None
}

impl Default for InputConfig {
    fn default() -> (r: Self)
        ensures
            blank_input(r),
    {
        InputConfig {
            repository: None,
            git_path: None,
            full_clone: None,
            cache_dir: None,
            source: None,
            target: None,
            output: None,
            exclude: Vec::new(),
            force: None,
            verbose: None,
            dry_run: None,
            both_versions: None,
            summary: None,
            check_permissions: None,
            patch: None,
            patch_file: None,
            excel: None,
            excel_fold_level: None,
            show_unchanged: None,
            filter_status: Vec::new(),
            stats_only: None,
            no_tree: None,
            no_details: None,
            copy_deleted: None,
            preserve_timestamps: None,
            workers: None,
            temp_dir: None,
            color: None,
            log_level: None,
            three_way: None,
            base: None,
            merge_style: None,
            conflict_only: None,
        }
    }
}

} // verus!
