use disk_cleaner::filter::{
    entry_qualifies, is_older_than, is_permission_denied, path_matches_pattern, should_walk_root, Criterion,
};
use disk_cleaner::model::{Candidate, EntryInfo, IoErrorKind, RootListing, Timestamp, TraversalError, WalkItem};
use disk_cleaner::scan::{collect_candidates, scan_files, scan_files_for_age, scan_notices, ScanNotice};
use disk_cleaner::text::contains_string;

const DAY: i64 = 24 * 60 * 60;
const NOW: i64 = 1_700_000_000;

fn file(path: &str, ext: &str, size: u64, modified_secs: i64) -> WalkItem {
    WalkItem::Entry(EntryInfo {
        path: path.to_string(),
        is_file: true,
        extension: ext.to_string(),
        size,
        modified: Some(Timestamp::new(modified_secs, 0)),
    })
}

fn dir(path: &str) -> WalkItem {
    WalkItem::Entry(EntryInfo {
        path: path.to_string(),
        is_file: false,
        extension: String::new(),
        size: 4096,
        modified: Some(Timestamp::new(NOW, 0)),
    })
}

fn failed(path: &str, kind: Option<IoErrorKind>, message: &str) -> WalkItem {
    WalkItem::Failed(TraversalError { path: Some(path.to_string()), io_kind: kind, message: message.to_string() })
}

fn root(path: &str, readable: bool, items: Vec<WalkItem>) -> RootListing {
    RootListing { path: path.to_string(), readable, items }
}

fn paths(found: &Vec<Candidate>) -> Vec<String> {
    found.iter().map(|c| c.path.clone()).collect()
}

fn three_files(modified_secs: i64) -> Vec<RootListing> {
    vec![root(
        "/work",
        true,
        vec![
            dir("/work"),
            file("/work/test1.tmp", "tmp", 0, modified_secs),
            file("/work/test2.log", "log", 0, modified_secs),
            file("/work/test3.txt", "txt", 0, NOW),
        ],
    )]
}

#[test]
fn test_scan_files() {
    let exclude_dirs: Vec<String> = Vec::new();
    let exclude_types: Vec<String> = Vec::new();
    let dirs_to_scan = three_files(NOW);

    let files_to_clean = paths(&scan_files(&dirs_to_scan, &exclude_dirs, &exclude_types));

    assert!(files_to_clean.contains(&"/work/test1.tmp".to_string()));
    assert!(files_to_clean.contains(&"/work/test2.log".to_string()));
    assert!(!files_to_clean.contains(&"/work/test3.txt".to_string()));
}

#[test]
fn test_scan_files_for_age() {
    let exclude_dirs: Vec<String> = Vec::new();
    let age_in_days: i64 = 31;
    let dirs_to_scan = three_files(NOW - age_in_days * DAY);

    let now = Timestamp::new(NOW, 1_000_000);
    let files_to_clean = paths(&scan_files_for_age(&dirs_to_scan, &exclude_dirs, age_in_days, now));

    assert!(files_to_clean.contains(&"/work/test1.tmp".to_string()));
    assert!(files_to_clean.contains(&"/work/test2.log".to_string()));
    assert!(!files_to_clean.contains(&"/work/test3.txt".to_string()));
}

#[test]
fn scan_returns_candidates_in_walk_order_with_size_and_time() {
    let roots = vec![root(
        "/a",
        true,
        vec![file("/a/x.bak", "bak", 7, 11), file("/a/y.old", "old", 9, 12), file("/a/z.rs", "rs", 1, 13)],
    )];
    let found = scan_files(&roots, &Vec::new(), &Vec::new());
    assert_eq!(
        found,
        vec![
            Candidate { path: "/a/x.bak".to_string(), size: 7, modified: Some(Timestamp::new(11, 0)) },
            Candidate { path: "/a/y.old".to_string(), size: 9, modified: Some(Timestamp::new(12, 0)) },
        ]
    );
}

#[test]
fn scan_leaves_out_excluded_extensions_and_directories() {
    let roots = vec![root(
        "/a",
        true,
        vec![
            dir("/a/old.tmp"),
            file("/a/keep.log", "log", 1, NOW),
            file("/a/drop.tmp", "tmp", 1, NOW),
            file("/a/also.bak", "bak", 1, NOW),
        ],
    )];
    let found = paths(&scan_files(&roots, &Vec::new(), &vec!["log".to_string(), "bak".to_string()]));
    assert_eq!(found, vec!["/a/drop.tmp".to_string()]);
}

#[test]
fn scan_ignores_the_excluded_directories() {
    let roots = three_files(NOW);
    let found = scan_files(&roots, &vec!["/work".to_string()], &Vec::new());
    assert_eq!(found.len(), 2);
}

#[test]
fn scan_of_nothing_is_empty() {
    assert!(scan_files(&Vec::new(), &Vec::new(), &Vec::new()).is_empty());
    assert!(scan_files(&vec![root("/e", true, Vec::new())], &Vec::new(), &Vec::new()).is_empty());
}

#[test]
fn pattern_matches_the_four_suffixes_only() {
    assert!(path_matches_pattern("/x/a.tmp"));
    assert!(path_matches_pattern("/x/a.log"));
    assert!(path_matches_pattern("/x/a.old"));
    assert!(path_matches_pattern("/x/a.bak"));
    assert!(path_matches_pattern(".tmp"));
    assert!(!path_matches_pattern("/x/a.txt"));
    assert!(!path_matches_pattern("/x/a.tmp.txt"));
    assert!(!path_matches_pattern("/x/atmp"));
    assert!(!path_matches_pattern("/x/a.TMP"));
    assert!(!path_matches_pattern(""));
}

#[test]
fn pattern_looks_at_the_very_end_of_the_path() {
    assert!(path_matches_pattern("/x/line\nbreak/a.tmp"));
    assert!(path_matches_pattern("/x/line\nbreak.log"));
    assert!(!path_matches_pattern("/x/a.tmp\n"));
    assert!(!path_matches_pattern("/x/a.tmp "));
    assert!(!path_matches_pattern("/x/a.tmp/"));
    assert!(path_matches_pattern("/x/\u{e4}\u{4e2d}.old"));
    assert!(path_matches_pattern("/x/.bak"));
    assert!(path_matches_pattern("a.log.bak"));
    assert!(!path_matches_pattern("tmp"));
    assert!(!path_matches_pattern(".tm"));
    assert!(!path_matches_pattern("/x/a.tmpx"));
    assert!(!path_matches_pattern("/x/a,tmp"));
}

#[test]
fn unreadable_root_is_skipped_unless_it_is_downloads() {
    let hidden = root("/root/secret", false, vec![file("/root/secret/a.tmp", "tmp", 1, NOW)]);
    let downloads = root("/home/u/Downloads", false, vec![file("/home/u/Downloads/b.tmp", "tmp", 1, NOW)]);
    assert!(!should_walk_root(&hidden, Criterion::Pattern, &Vec::new()));
    assert!(should_walk_root(&downloads, Criterion::Pattern, &Vec::new()));
    let found = paths(&scan_files(&vec![hidden, downloads], &Vec::new(), &Vec::new()));
    assert_eq!(found, vec!["/home/u/Downloads/b.tmp".to_string()]);
}

#[test]
fn age_scan_skips_excluded_and_unreadable_roots_downloads_too() {
    let old = NOW - 40 * DAY;
    let roots = vec![
        root("/keep", true, vec![file("/keep/a.txt", "txt", 1, old)]),
        root("/excluded", true, vec![file("/excluded/b.txt", "txt", 1, old)]),
        root("/home/u/Downloads", false, vec![file("/home/u/Downloads/c.txt", "txt", 1, old)]),
    ];
    let found = paths(&scan_files_for_age(&roots, &vec!["/excluded".to_string()], 30, Timestamp::new(NOW, 0)));
    assert_eq!(found, vec!["/keep/a.txt".to_string()]);
}

#[test]
fn age_and_pattern_scans_do_not_apply_each_other() {
    let roots = vec![root(
        "/w",
        true,
        vec![
            file("/w/a.tmp", "tmp", 1, NOW - 40 * DAY),
            file("/w/b.log", "log", 1, NOW - 5 * DAY),
            file("/w/c.txt", "txt", 1, NOW - 5 * DAY),
        ],
    )];
    let by_age = paths(&scan_files_for_age(&roots, &Vec::new(), 30, Timestamp::new(NOW, 0)));
    assert_eq!(by_age, vec!["/w/a.tmp".to_string()]);
    let by_pattern = paths(&scan_files(&roots, &Vec::new(), &Vec::new()));
    assert_eq!(by_pattern, vec!["/w/a.tmp".to_string(), "/w/b.log".to_string()]);
}

#[test]
fn age_threshold_is_strict() {
    let now = Timestamp::new(NOW, 0);
    assert!(!is_older_than(now, Timestamp::new(NOW - 30 * DAY, 0), 30));
    assert!(is_older_than(now, Timestamp::new(NOW - 30 * DAY - 1, 999_999_999), 30));
    assert!(is_older_than(Timestamp::new(NOW, 1), Timestamp::new(NOW - 30 * DAY, 0), 30));
    assert!(is_older_than(now, Timestamp::new(NOW - 1, 0), 0));
    assert!(is_older_than(now, now, -1));
    assert!(!is_older_than(now, Timestamp::new(NOW + 1, 0), 0));
}

#[test]
fn age_comparison_does_not_overflow_at_the_limits() {
    let earliest = Timestamp::new(i64::MIN, 0);
    let latest = Timestamp::new(i64::MAX, 999_999_999);
    assert!(is_older_than(latest, earliest, 0));
    assert!(!is_older_than(earliest, latest, 0));
    assert!(!is_older_than(latest, earliest, i64::MAX));
    assert!(is_older_than(earliest, latest, i64::MIN));
}

#[test]
fn file_without_modification_time_is_never_old() {
    let e = EntryInfo { path: "/w/a".to_string(), is_file: true, extension: String::new(), size: 0, modified: None };
    let criterion = Criterion::OlderThan { now: Timestamp::new(NOW, 0), days: -1000 };
    assert!(!entry_qualifies(&e, criterion, &Vec::new()));
    assert!(entry_qualifies(&e, Criterion::AnyFile, &Vec::new()));
}

#[test]
fn any_file_criterion_takes_files_only() {
    let roots = vec![root("/w", true, vec![dir("/w"), file("/w/a", "", 3, NOW), dir("/w/sub")])];
    let found = paths(&collect_candidates(&roots, Criterion::AnyFile, &Vec::new(), &Vec::new()));
    assert_eq!(found, vec!["/w/a".to_string()]);
}

#[test]
fn permission_denied_is_told_apart() {
    let denied = TraversalError { path: None, io_kind: Some(IoErrorKind::PermissionDenied), message: String::new() };
    let missing = TraversalError { path: None, io_kind: Some(IoErrorKind::NotFound), message: String::new() };
    let looped = TraversalError { path: None, io_kind: None, message: String::new() };
    assert!(is_permission_denied(&denied));
    assert!(!is_permission_denied(&missing));
    assert!(!is_permission_denied(&looped));
}

#[test]
fn failures_do_not_stop_a_scan_and_denied_ones_are_silent() {
    let roots = vec![
        root(
            "/w",
            true,
            vec![
                failed("/w/locked", Some(IoErrorKind::PermissionDenied), "denied"),
                file("/w/a.tmp", "tmp", 1, NOW),
                failed("/w/dangling", Some(IoErrorKind::NotFound), "broken link"),
                failed("/w/loop", None, "loop found"),
                file("/w/b.log", "log", 1, NOW),
            ],
        ),
        root("/closed", false, vec![file("/closed/c.tmp", "tmp", 1, NOW)]),
    ];
    let found = paths(&scan_files(&roots, &Vec::new(), &Vec::new()));
    assert_eq!(found, vec!["/w/a.tmp".to_string(), "/w/b.log".to_string()]);
    let notices = scan_notices(&roots, Criterion::Pattern, &Vec::new());
    assert_eq!(
        notices,
        vec![
            ScanNotice::EntryFailed("broken link".to_string()),
            ScanNotice::EntryFailed("loop found".to_string()),
            ScanNotice::RootSkipped("/closed".to_string()),
        ]
    );
}

#[test]
fn contains_string_finds_whole_strings_only() {
    let items = vec!["log".to_string(), "tmp".to_string()];
    assert!(contains_string(&items, &"tmp".to_string()));
    assert!(!contains_string(&items, &"tm".to_string()));
    assert!(!contains_string(&items, &"".to_string()));
    assert!(!contains_string(&Vec::new(), &"tmp".to_string()));
}
