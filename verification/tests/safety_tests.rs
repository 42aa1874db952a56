use rs_gitdiffcopy::error::AppError;
use rs_gitdiffcopy::safety::{format_size, is_protected_path, is_protected_with_home, validate_output_path, TargetOs};
use std::path::Path;

#[test]
fn test_is_protected_path_unix_root() {
    // The root folder is protected.
    let result = is_protected_path("/", TargetOs::Linux);
    assert!(result, "Root directory should be protected");
}

#[test]
fn test_is_protected_path_unix_system_dirs() {
    // System folders that are real folders (not links) are protected.
    let system_dirs = vec!["/usr", "/etc", "/var", "/home"];
    for dir in system_dirs {
        let path = Path::new(dir);
        if path.exists() && !path.is_symlink() {
            let result = is_protected_path(dir, TargetOs::Linux);
            assert!(result, "{} should be protected", dir);
        }
    }
}

#[test]
fn test_is_protected_path_unix_safe_paths() {
    // A folder under the temporary folder is not protected.
    let safe_path = "/tmp/rs_gitdiffcopy_test_dir/safe_output";
    let result = is_protected_path(safe_path, TargetOs::Linux);
    assert!(!result, "Temp directory path should NOT be protected");
}

#[test]
fn test_validate_output_path_protected() {
    // Output into a protected folder is refused.
    let result = validate_output_path("/", "/", TargetOs::Linux);
    assert!(result.is_err(), "Root path should be rejected");
    if let Err(AppError::ProtectedPath(path)) = result {
        assert_eq!(path, "/");
    } else {
        panic!("Expected ProtectedPath error");
    }
}

#[test]
fn test_validate_output_path_safe() {
    // Output into a safe folder is allowed.
    let safe_path = "/tmp/rs_gitdiffcopy_test_dir/output";
    let result = validate_output_path(safe_path, safe_path, TargetOs::Linux);
    assert!(result.is_ok(), "Safe path should be allowed");
}

#[test]
fn test_is_protected_path_home_directory() {
    // The home folder is protected.
    if let Some(home) = dirs::home_dir() {
        let home = home.to_string_lossy().into_owned();
        let result = is_protected_path(&home, TargetOs::Linux);
        assert!(result, "Home directory should be protected");
    }
}

#[test]
fn test_format_size() {
    assert_eq!(format_size(500), "500 B");
    assert_eq!(format_size(1024), "1.0 KB");
    assert_eq!(format_size(1536), "1.5 KB");
    assert_eq!(format_size(1048576), "1.0 MB");
    assert_eq!(format_size(1073741824), "1.0 GB");
}

#[test]
fn format_size_edges() {
    assert_eq!(format_size(0), "0 B");
    assert_eq!(format_size(1023), "1023 B");
    // 1.25 KB is a tie between 1.2 and 1.3: the even digit wins.
    assert_eq!(format_size(1280), "1.2 KB");
    // 1383 B is 1.3505859375 KB.
    assert_eq!(format_size(1383), "1.4 KB");
    assert_eq!(format_size(1048575), "1024.0 KB");
    assert_eq!(format_size(5 * 1073741824 + 536870912), "5.5 GB");
    assert_eq!(format_size(u64::MAX), "17179869184.0 GB");
}

#[test]
fn protected_path_components() {
    // Paths are compared component by component.
    assert!(is_protected_with_home("/usr/", None, TargetOs::Linux));
    assert!(is_protected_with_home("//usr", None, TargetOs::Linux));
    assert!(is_protected_with_home("/usr/.", None, TargetOs::Linux));
    assert!(is_protected_with_home("/usr/local", None, TargetOs::Linux));
    assert!(!is_protected_with_home("usr", None, TargetOs::Linux));
    assert!(is_protected_with_home("/home/alice/", Some("/home/alice"), TargetOs::Linux));
    assert!(!is_protected_with_home("/home/alice/work", Some("/home/alice"), TargetOs::Linux));
    assert!(!is_protected_with_home("/srv/out", Some("/home/alice"), TargetOs::Linux));
}

#[test]
fn folders_directly_under_protected_ones() {
    assert!(is_protected_with_home("/usr/local", None, TargetOs::Linux));
    assert!(is_protected_with_home("/tmp", None, TargetOs::Linux));
    assert!(!is_protected_with_home("/usr/local/share", None, TargetOs::Linux));
    assert!(!is_protected_with_home("/tmp/out", None, TargetOs::Linux));
    assert!(is_protected_with_home("/home/alice", None, TargetOs::Linux));
    assert!(!is_protected_with_home("/home/alice/work", Some("/home/alice"), TargetOs::Linux));
    assert!(is_protected_with_home("/Applications/Tool", None, TargetOs::MacOs));
    assert!(!is_protected_with_home("/Applications/Tool", None, TargetOs::Linux));
}

#[test]
fn windows_folders_are_protected() {
    assert!(is_protected_with_home("C:\\Windows", None, TargetOs::Windows));
    assert!(is_protected_with_home("\\\\?\\C:\\Program Files\\App", None, TargetOs::Windows));
    assert!(!is_protected_with_home("D:\\work\\out", None, TargetOs::Windows));
    assert!(is_protected_with_home("C:\\Users\\alice\\AppData", Some("C:\\Users\\alice"), TargetOs::Windows));
    assert!(!is_protected_with_home("C:\\Users\\alice\\work\\out", Some("C:\\Users\\alice"), TargetOs::Windows));
    assert!(!is_protected_with_home("/home/alice/out", Some("/home/alice"), TargetOs::Linux));
}

#[test]
fn macos_system_folders_are_protected() {
    for dir in ["/System", "/Library", "/Users", "/Applications", "/bin", "/sbin", "/usr", "/etc", "/var"] {
        assert!(is_protected_with_home(dir, None, TargetOs::MacOs), "{} should be protected", dir);
    }
    assert!(!is_protected_with_home("/opt/work/out", None, TargetOs::MacOs));
}
