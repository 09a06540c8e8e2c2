use disk_cleaner::duplicates::{find_duplicate_files, flag_duplicates};
use disk_cleaner::model::{Candidate, EntryInfo, RootListing, WalkItem};

fn sized(path: &str, ext: &str, size: u64) -> WalkItem {
    WalkItem::Entry(EntryInfo {
        path: path.to_string(),
        is_file: true,
        extension: ext.to_string(),
        size,
        modified: None,
    })
}

fn candidate(path: &str, size: u64) -> Candidate {
    Candidate { path: path.to_string(), size, modified: None }
}

fn names(found: &Vec<Candidate>) -> Vec<String> {
    found.iter().map(|c| c.path.clone()).collect()
}

#[test]
fn test_find_duplicate_files() {
    let dirs_to_scan = vec![RootListing {
        path: "/work".to_string(),
        readable: true,
        items: vec![
            sized("/work/test1.txt", "txt", 17),
            sized("/work/test2.txt", "txt", 17),
            sized("/work/test3.txt", "txt", 0),
        ],
    }];
    let exclude_dirs: Vec<String> = Vec::new();
    let exclude_types: Vec<String> = Vec::new();

    let duplicate_files = names(&find_duplicate_files(&dirs_to_scan, &exclude_dirs, &exclude_types));

    assert!(!duplicate_files.contains(&"/work/test1.txt".to_string()));
    assert!(duplicate_files.contains(&"/work/test2.txt".to_string()));
    assert!(!duplicate_files.contains(&"/work/test3.txt".to_string()));
}

#[test]
fn equal_sizes_flag_the_second_whatever_the_content() {
    let found = flag_duplicates(&vec![candidate("/a", 100), candidate("/b", 200), candidate("/c", 100)]);
    assert_eq!(found, vec![candidate("/c", 100)]);
}

#[test]
fn every_later_occurrence_is_flagged() {
    let found = names(&flag_duplicates(&vec![
        candidate("/1", 5),
        candidate("/2", 6),
        candidate("/3", 5),
        candidate("/4", 5),
        candidate("/5", 6),
        candidate("/6", 7),
    ]));
    assert_eq!(found, vec!["/3".to_string(), "/4".to_string(), "/5".to_string()]);
}

#[test]
fn distinct_sizes_flag_nothing() {
    assert!(flag_duplicates(&vec![candidate("/a", 1), candidate("/b", 2), candidate("/c", 3)]).is_empty());
    assert!(flag_duplicates(&Vec::new()).is_empty());
    assert!(flag_duplicates(&vec![candidate("/a", 0)]).is_empty());
}

#[test]
fn empty_files_collide_with_each_other() {
    let found = names(&flag_duplicates(&vec![candidate("/a", 0), candidate("/b", 0)]));
    assert_eq!(found, vec!["/b".to_string()]);
}

#[test]
fn duplicates_are_found_across_roots_in_root_order() {
    let roots = vec![
        RootListing { path: "/one".to_string(), readable: true, items: vec![sized("/one/a", "", 9)] },
        RootListing { path: "/two".to_string(), readable: true, items: vec![sized("/two/b", "", 9)] },
    ];
    let found = names(&find_duplicate_files(&roots, &Vec::new(), &Vec::new()));
    assert_eq!(found, vec!["/two/b".to_string()]);
}

#[test]
fn excluded_extensions_and_roots_take_no_part_in_duplicates() {
    let roots = vec![
        RootListing { path: "/skip".to_string(), readable: true, items: vec![sized("/skip/a.txt", "txt", 9)] },
        RootListing { path: "/dark".to_string(), readable: false, items: vec![sized("/dark/b.txt", "txt", 9)] },
        RootListing {
            path: "/work".to_string(),
            readable: true,
            items: vec![sized("/work/c.iso", "iso", 9), sized("/work/d.txt", "txt", 9), sized("/work/e.txt", "txt", 9)],
        },
    ];
    let found = names(&find_duplicate_files(&roots, &vec!["/skip".to_string()], &vec!["iso".to_string()]));
    assert_eq!(found, vec!["/work/e.txt".to_string()]);
}
