//! The predicates that decide whether a root is walked and whether an entry qualifies.

use vstd::prelude::*;
use crate::model::{EntryInfo, IoErrorKind, RootListing, Timestamp, TraversalError, string_views};
use crate::text::{contains_string, has_disposable_suffix, is_substring, pattern_is_match, str_contains};

verus! {

/// What an entry has to be, beyond being a file, to be picked.
#[derive(Clone, Copy, Debug, PartialEq, Eq, Structural)]
pub enum Criterion {
    /// Its path ends in one of the disposable suffixes.
    Pattern,
    /// It was last modified more than `days` days before `now`.
    OlderThan { now: Timestamp, days: i64 },
    /// Every file.
    AnyFile,
}

/// The directory name whose roots are walked even when they could not be listed.
pub open spec fn always_attempted() -> Seq<char> {
    "Downloads"@
}

pub const NANOS_PER_DAY: i128 = 86_400_000_000_000;

/// `path` matches the disposable pattern: it ends in `.tmp`, `.log`, `.old` or `.bak`.
pub open spec fn matches_pattern(path: Seq<char>) -> bool {
    has_disposable_suffix(path)
}

/// More than `days` whole days lie between `modified` and `now`.
pub open spec fn older_than(now: Timestamp, modified: Timestamp, days: i64) -> bool {
    now.as_nanos() - modified.as_nanos() > days * 86_400_000_000_000
}

/// The entry meets the criterion, whatever its extension.
pub open spec fn meets(e: EntryInfo, criterion: Criterion) -> bool {
    match criterion {
        Criterion::Pattern => matches_pattern(e.path@),
        Criterion::OlderThan { now, days } => match e.modified {
            Some(m) => older_than(now, m, days),
            None => false,
        },
        Criterion::AnyFile => true,
    }
}

/// The entry is picked: a file, of no excluded extension, that meets the criterion.
pub open spec fn qualifies(e: EntryInfo, criterion: Criterion, excluded: Seq<Seq<char>>) -> bool {
    e.is_file && !excluded.contains(e.extension@) && meets(e, criterion)
}

/// The root is walked. Under the pattern criterion an unreadable root is
/// skipped unless its path names the always-attempted directory; under the
/// others a root is skipped when it is excluded or unreadable.
pub open spec fn root_is_walked(
    path: Seq<char>,
    readable: bool,
    criterion: Criterion,
    excluded_dirs: Seq<Seq<char>>,
) -> bool {
    match criterion {
        Criterion::Pattern => readable || is_substring(always_attempted(), path),
        _ => readable && !excluded_dirs.contains(path),
    }
}

/// The error is reported to the user: every error but a denied permission.
pub open spec fn is_reported(e: TraversalError) -> bool {
    e.io_kind != Some(IoErrorKind::PermissionDenied)
}

/// Whether a traversal error stems from a denied permission.
pub fn is_permission_denied(err: &TraversalError) -> (denied: bool)
    ensures
        denied == (err.io_kind == Some(IoErrorKind::PermissionDenied)),
        denied == !is_reported(*err),
{
    match err.io_kind {
        Some(IoErrorKind::PermissionDenied) => true,
        _ => false,
    }
}

/// Whether more than `days` whole days lie between `modified` and `now`.
pub fn is_older_than(now: Timestamp, modified: Timestamp, days: i64) -> (older: bool)
    ensures
        older == older_than(now, modified, days),
{
    let now_ns: i128 = (now.secs as i128) * 1_000_000_000 + (now.nanos as i128);
    let modified_ns: i128 = (modified.secs as i128) * 1_000_000_000 + (modified.nanos as i128);
    let threshold: i128 = (days as i128) * NANOS_PER_DAY;
    now_ns - modified_ns > threshold
}

/// Whether `path` matches the disposable pattern.
pub fn path_matches_pattern(path: &str) -> (matched: bool)
    ensures
        matched == matches_pattern(path@),
{
    match pattern_is_match(".*\\.(tmp|log|old|bak)$", path) {
        Some(found) => found,
        None => false,
    }
}

/// Whether the entry is picked under `criterion` with the extensions in `excluded` left out.
pub fn entry_qualifies(e: &EntryInfo, criterion: Criterion, excluded: &Vec<String>) -> (picked: bool)
    ensures
        picked == qualifies(*e, criterion, string_views(excluded@)),
{
    if !e.is_file {
        return false;
    }
    if contains_string(excluded, &e.extension) {
        return false;
    }
    match criterion {
        Criterion::Pattern => path_matches_pattern(e.path.as_str()),
        Criterion::OlderThan { now, days } => match e.modified {
            Some(m) => is_older_than(now, m, days),
            None => false,
        },
        Criterion::AnyFile => true,
    }
}

/// Whether the root is walked under `criterion` with the directories in `excluded_dirs` left out.
pub fn should_walk_root(root: &RootListing, criterion: Criterion, excluded_dirs: &Vec<String>) -> (walked: bool)
    ensures
        walked == root_is_walked(root.path@, root.readable, criterion, string_views(excluded_dirs@)),
{
    match criterion {
        Criterion::Pattern => root.readable || str_contains(root.path.as_str(), "Downloads"),
        _ => root.readable && !contains_string(excluded_dirs, &root.path),
    }
}

/// An excluded extension shuts an entry out whatever else holds of it, and
/// nothing but a file ever qualifies.
pub proof fn lemma_exclusion_comes_first(e: EntryInfo, criterion: Criterion, excluded: Seq<Seq<char>>)
    ensures
        excluded.contains(e.extension@) ==> !qualifies(e, criterion, excluded),
        !e.is_file ==> !qualifies(e, criterion, excluded),
        qualifies(e, criterion, excluded) ==> meets(e, criterion),
{
}

/// A readable root is walked under the pattern criterion, and so is one
/// that names the always-attempted directory, readable or not; under the
/// other criteria no unreadable and no excluded root is walked.
pub proof fn lemma_which_roots_are_walked(
    path: Seq<char>,
    readable: bool,
    criterion: Criterion,
    excluded_dirs: Seq<Seq<char>>,
)
    ensures
        criterion == Criterion::Pattern && (readable || is_substring(always_attempted(), path))
            ==> root_is_walked(path, readable, criterion, excluded_dirs),
        criterion != Criterion::Pattern && (!readable || excluded_dirs.contains(path)) ==> !root_is_walked(
            path,
            readable,
            criterion,
            excluded_dirs,
        ),
{
}

} // verus!
