//! What is known of each platform: directories that no scan should touch, and where the trash lies.

use vstd::prelude::*;
use crate::model::{string_views, Platform};

verus! {

/// The directories that are excluded on `platform` without being asked for.
pub open spec fn default_excludes(platform: Platform) -> Seq<Seq<char>> {
    match platform {
        Platform::Windows => seq!["C:\\ProgramData"@, "C:\\Windows"@],
        Platform::MacOs => seq![
            "/Users/user/Library/Caches/com.apple.HomeKit"@,
            "/Users/user/Library/Caches/CloudKit"@,
            "/Users/user/Library/Caches/com.apple.Safari"@,
            "/Users/user/Library/Caches/com.apple.containermanagerd"@,
            "/Users/user/Library/Caches/com.apple.Safari.SafeBrowsing"@,
            "/Users/user/Library/Caches/FamilyCircle"@,
            "/Users/user/Library/Caches/com.apple.homed"@,
            "/Users/user/Library/Caches/com.apple.findmy.fmipcore"@,
            "/Users/user/Library/Caches/com.apple.ap.adprivacyd"@,
            "/Users/user/Library/Caches/com.apple.fmfcore"@,
        ],
        Platform::Linux => seq!["/home/user/.cache"@, "/home/user/.local/share/Trash"@],
    }
}

/// The trash directory of `platform`, where it has one that can be cleared.
pub open spec fn trash_dir(platform: Platform) -> Option<Seq<char>> {
    match platform {
        Platform::Windows => None,
        Platform::MacOs => Some("~/Library/.Trash"@),
        Platform::Linux => Some("~/.local/share/Trash/files"@),
    }
}

/// The names, below the user's cache directory, of the browser caches that are cleared.
pub open spec fn browser_cache_names() -> Seq<Seq<char>> {
    seq!["mozilla"@, "google-chrome"@, "firefox"@]
}

/// The directories that are excluded on `platform` without being asked for.
pub fn get_default_excludes(platform: Platform) -> (excludes: Vec<String>)
    ensures
        string_views(excludes@) == default_excludes(platform),
{
    let mut excludes: Vec<String> = Vec::new();
    match platform {
        Platform::Windows => {
            excludes.push("C:\\ProgramData".to_owned());
            excludes.push("C:\\Windows".to_owned());
        },
        Platform::MacOs => {
            excludes.push("/Users/user/Library/Caches/com.apple.HomeKit".to_owned());
            excludes.push("/Users/user/Library/Caches/CloudKit".to_owned());
            excludes.push("/Users/user/Library/Caches/com.apple.Safari".to_owned());
            excludes.push("/Users/user/Library/Caches/com.apple.containermanagerd".to_owned());
            excludes.push("/Users/user/Library/Caches/com.apple.Safari.SafeBrowsing".to_owned());
            excludes.push("/Users/user/Library/Caches/FamilyCircle".to_owned());
            excludes.push("/Users/user/Library/Caches/com.apple.homed".to_owned());
            excludes.push("/Users/user/Library/Caches/com.apple.findmy.fmipcore".to_owned());
            excludes.push("/Users/user/Library/Caches/com.apple.ap.adprivacyd".to_owned());
            excludes.push("/Users/user/Library/Caches/com.apple.fmfcore".to_owned());
        },
        Platform::Linux => {
            excludes.push("/home/user/.cache".to_owned());
            excludes.push("/home/user/.local/share/Trash".to_owned());
        },
    }
    assert(string_views(excludes@) =~= default_excludes(platform));
    excludes
}

/// The trash directory of `platform`, where it has one that can be cleared.
pub fn get_trash_dir(platform: Platform) -> (dir: Option<String>)
    ensures
        dir is Some == trash_dir(platform) is Some,
        dir matches Some(path) ==> trash_dir(platform) == Some(path@),
{
    match platform {
        Platform::Windows => None,
        Platform::MacOs => Some("~/Library/.Trash".to_owned()),
        Platform::Linux => Some("~/.local/share/Trash/files".to_owned()),
    }
}

/// The names, below the user's cache directory, of the browser caches that are cleared.
pub fn get_browser_cache_names() -> (names: Vec<String>)
    ensures
        string_views(names@) == browser_cache_names(),
{
    let mut names: Vec<String> = Vec::new();
    names.push("mozilla".to_owned());
    names.push("google-chrome".to_owned());
    names.push("firefox".to_owned());
    assert(string_views(names@) =~= browser_cache_names());
    names
}

} // verus!
