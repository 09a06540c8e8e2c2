use disk_cleaner::defaults::{get_browser_cache_names, get_default_excludes, get_trash_dir};
use disk_cleaner::model::Platform;

#[test]
fn linux_excludes_cache_and_trash() {
    assert_eq!(
        get_default_excludes(Platform::Linux),
        vec!["/home/user/.cache".to_string(), "/home/user/.local/share/Trash".to_string()]
    );
}

#[test]
fn windows_excludes_system_directories() {
    assert_eq!(
        get_default_excludes(Platform::Windows),
        vec!["C:\\ProgramData".to_string(), "C:\\Windows".to_string()]
    );
}

#[test]
fn macos_excludes_ten_caches() {
    let excludes = get_default_excludes(Platform::MacOs);
    assert_eq!(excludes.len(), 10);
    assert_eq!(excludes[0], "/Users/user/Library/Caches/com.apple.HomeKit");
    assert_eq!(excludes[9], "/Users/user/Library/Caches/com.apple.fmfcore");
    assert!(excludes.iter().all(|e| e.starts_with("/Users/user/Library/Caches/")));
}

#[test]
fn trash_lies_where_the_platform_puts_it() {
    assert_eq!(get_trash_dir(Platform::Windows), None);
    assert_eq!(get_trash_dir(Platform::MacOs), Some("~/Library/.Trash".to_string()));
    assert_eq!(get_trash_dir(Platform::Linux), Some("~/.local/share/Trash/files".to_string()));
}

#[test]
fn three_browser_caches_are_cleared() {
    assert_eq!(
        get_browser_cache_names(),
        vec!["mozilla".to_string(), "google-chrome".to_string(), "firefox".to_string()]
    );
}
