use rs_gitdiffcopy::cli::Cli;
use rs_gitdiffcopy::config::{AppSettings, InputConfig, MergedConfig};
use rs_gitdiffcopy::types::{ColorMode, LogLevel, MergeStyle, PermissionCheckMode};

fn create_minimal_cli() -> Cli {
    Cli {
        source: Some("main".to_string()),
        target: Some("develop".to_string()),
        output: Some(String::from("/tmp/output")),
        repository: None,
        full_clone: false,
        cache_dir: None,
        config: None,
        git_path: None,
        exclude: vec![],
        force: false,
        summary: None,
        verbose: false,
        dry_run: false,
        both_versions: false,
        check_permissions: PermissionCheckMode::Off,
        patch: false,
        patch_file: None,
        excel: None,
        excel_fold_level: None,
        show_unchanged: false,
        save_config: None,
        filter_status: vec![],
        stats_only: false,
        no_tree: false,
        no_details: false,
        copy_deleted: false,
        preserve_timestamps: false,
        workers: None,
        temp_dir: None,
        color: ColorMode::Auto,
        log_level: LogLevel::Warn,
        three_way: false,
        base: None,
        merge_style: MergeStyle::All,
        conflict_only: false,
    }
}

#[test]
fn test_merged_config_missing_source() {
    let cli = Cli {
        source: None,
        target: Some("develop".to_string()),
        output: Some(String::from("/tmp/output")),
        ..create_minimal_cli()
    };
    let app_settings = AppSettings::default();
    let result = MergedConfig::merge(&cli, None, &app_settings, 4);
    assert!(result.is_err());
}

#[test]
fn test_merged_config_missing_target() {
    let cli = Cli {
        source: Some("main".to_string()),
        target: None,
        output: Some(String::from("/tmp/output")),
        ..create_minimal_cli()
    };
    let app_settings = AppSettings::default();
    let result = MergedConfig::merge(&cli, None, &app_settings, 4);
    assert!(result.is_err());
}

#[test]
fn test_merged_config_missing_output() {
    let cli = Cli {
        source: Some("main".to_string()),
        target: Some("develop".to_string()),
        output: None,
        ..create_minimal_cli()
    };
    let app_settings = AppSettings::default();
    let result = MergedConfig::merge(&cli, None, &app_settings, 4);
    assert!(result.is_err());
}

#[test]
fn test_merged_config_three_way_requires_base() {
    let cli = Cli {
        three_way: true,
        base: None,
        ..create_minimal_cli()
    };
    let app_settings = AppSettings::default();
    let result = MergedConfig::merge(&cli, None, &app_settings, 4);
    assert!(result.is_err());
}

#[test]
fn test_merged_config_three_way_with_base() {
    let cli = Cli {
        three_way: true,
        base: Some("main".to_string()),
        ..create_minimal_cli()
    };
    let app_settings = AppSettings::default();
    let result = MergedConfig::merge(&cli, None, &app_settings, 4);
    assert!(result.is_ok());
    let config = result.unwrap();
    assert!(config.three_way);
    assert_eq!(config.base, Some("main".to_string()));
}

#[test]
fn test_merged_config_cli_priority_over_config() {
    let cli = Cli {
        source: Some("cli-source".to_string()),
        verbose: true,
        ..create_minimal_cli()
    };
    let input_config = InputConfig {
        source: Some("config-source".to_string()),
        verbose: Some(false),
        ..InputConfig::default()
    };
    let app_settings = AppSettings::default();
    let result = MergedConfig::merge(&cli, Some(&input_config), &app_settings, 4);
    assert!(result.is_ok());
    let config = result.unwrap();
    // The command line wins
    assert_eq!(config.source, "cli-source");
    assert!(config.verbose);
}

#[test]
fn test_merged_config_exclude_merge() {
    let cli = Cli {
        exclude: vec!["*.tmp".to_string()],
        ..create_minimal_cli()
    };
    let input_config = InputConfig {
        exclude: vec!["*.log".to_string()],
        ..InputConfig::default()
    };
    let app_settings = AppSettings {
        default_exclude: vec!["node_modules/**".to_string()],
        ..AppSettings::default()
    };
    let result = MergedConfig::merge(&cli, Some(&input_config), &app_settings, 4);
    assert!(result.is_ok());
    let config = result.unwrap();
    // All exclusion patterns are merged
    assert_eq!(config.exclude.len(), 3);
    assert!(config.exclude.contains(&"node_modules/**".to_string()));
    assert!(config.exclude.contains(&"*.log".to_string()));
    assert!(config.exclude.contains(&"*.tmp".to_string()));
}

#[test]
fn test_merged_config_filter_status_cli_priority() {
    let cli = Cli {
        filter_status: vec!["added".to_string()],
        ..create_minimal_cli()
    };
    let input_config = InputConfig {
        filter_status: vec!["modified".to_string(), "deleted".to_string()],
        ..InputConfig::default()
    };
    let app_settings = AppSettings::default();
    let result = MergedConfig::merge(&cli, Some(&input_config), &app_settings, 4);
    assert!(result.is_ok());
    let config = result.unwrap();
    // The command line wins (no merging)
    assert_eq!(config.filter_status.len(), 1);
    assert_eq!(config.filter_status[0], "added");
}

#[test]
fn test_merged_config_to_input_config_roundtrip() {
    let cli = Cli {
        force: true,
        verbose: true,
        dry_run: true,
        both_versions: true,
        ..create_minimal_cli()
    };
    let app_settings = AppSettings::default();
    let merged = MergedConfig::merge(&cli, None, &app_settings, 4).unwrap();
    let input_config = merged.to_input_config();

    assert_eq!(input_config.source, Some("main".to_string()));
    assert_eq!(input_config.target, Some("develop".to_string()));
    assert_eq!(input_config.force, Some(true));
    assert_eq!(input_config.verbose, Some(true));
    assert_eq!(input_config.dry_run, Some(true));
    assert_eq!(input_config.both_versions, Some(true));
}

#[test]
fn test_merged_config_default_workers() {
    let cli = create_minimal_cli();
    let app_settings = AppSettings::default();
    let result = MergedConfig::merge(&cli, None, &app_settings, 4);
    assert!(result.is_ok());
    let config = result.unwrap();
    // The default is the number of cores (at least 1)
    assert!(config.workers >= 1);
}

#[test]
fn test_merged_config_workers_priority() {
    let cli = Cli {
        workers: Some(8),
        ..create_minimal_cli()
    };
    let input_config = InputConfig {
        workers: Some(4),
        ..InputConfig::default()
    };
    let app_settings = AppSettings {
        workers: Some(2),
        ..AppSettings::default()
    };
    let result = MergedConfig::merge(&cli, Some(&input_config), &app_settings, 4);
    assert!(result.is_ok());
    let config = result.unwrap();
    // Precedence: CLI > InputConfig > AppSettings
    assert_eq!(config.workers, 8);
}

#[test]
fn test_app_settings_default() {
    let settings = AppSettings::default();
    assert!(settings.git_path.is_none());
    assert!(settings.cache_dir.is_none());
    assert!(settings.temp_dir.is_none());
    assert!(settings.workers.is_none());
    assert!(settings.full_clone.is_none());
    assert!(settings.color.is_none());
    assert!(settings.log_level.is_none());
    assert!(settings.default_exclude.is_empty());
}

#[test]
fn test_input_config_default() {
    let config = InputConfig::default();
    assert!(config.source.is_none());
    assert!(config.target.is_none());
    assert!(config.output.is_none());
    assert!(config.exclude.is_empty());
    assert!(config.filter_status.is_empty());
}
