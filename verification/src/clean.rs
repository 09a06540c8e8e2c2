//! Turning the results of removals into one outcome per file.

use vstd::prelude::*;
use crate::model::{
    attempt_outcome, classify_failure, Candidate, DeletionOutcome, IoErrorKind, IoFailure, OutcomeView,
    Timestamp, TraversalError, WalkItem,
};

verus! {

/// A file and what the attempt to remove it returned.
#[derive(Debug, PartialEq, Eq)]
pub struct EraseAttempt {
    pub path: String,
    pub result: Result<(), IoFailure>,
}

/// What is to be done with an item met while a directory is cleared.
#[derive(Clone, Copy, Debug, PartialEq, Eq, Structural)]
pub enum ClearAction {
    /// A file: remove it.
    Remove,
    /// Not a file: leave it.
    Skip,
    /// An entry that could not be read: report it.
    Report,
}

/// An item met while a directory was cleared, after the removals were tried.
#[derive(Debug, PartialEq, Eq)]
pub enum ClearedItem {
    File(EraseAttempt),
    NotAFile(String),
    Unreadable(TraversalError),
}

/// What became of an item of a cleared directory.
#[derive(Clone, Debug, PartialEq, Eq)]
pub enum ClearStatus {
    Removal(DeletionOutcome),
    Skipped,
    Error,
}

/// The mathematical value of a [`ClearStatus`].
pub enum ClearStatusView {
    Removal(OutcomeView),
    Skipped,
    Error,
}

impl View for ClearStatus {
    type V = ClearStatusView;

    open spec fn view(&self) -> ClearStatusView {
        match *self {
            ClearStatus::Removal(outcome) => ClearStatusView::Removal(outcome@),
            ClearStatus::Skipped => ClearStatusView::Skipped,
            ClearStatus::Error => ClearStatusView::Error,
        }
    }
}

/// Totals over a set of candidates.
#[derive(Clone, Copy, Debug, PartialEq, Eq, Structural)]
pub struct CleanReport {
    pub total_files: usize,
    pub total_size: u128,
    /// Nanoseconds from the start to the end; negative where the clock went backwards.
    pub elapsed_nanos: i128,
}

/// The sum of the byte lengths of `c`.
pub open spec fn total_size(c: Seq<Candidate>) -> int
    decreases c.len(),
{
    if c.len() == 0 {
        0
    } else {
        total_size(c.drop_last()) + c.last().size
    }
}

/// The outcome of one attempt: deleted on success, else the failure classified.
pub fn outcome_of(result: &Result<(), IoFailure>) -> (outcome: DeletionOutcome)
    ensures
        outcome@ == attempt_outcome(*result),
{
    match result {
        Ok(_) => DeletionOutcome::Deleted,
        Err(f) => classify_failure(f),
    }
}

/// The text under which an outcome is listed.
pub open spec fn outcome_label(outcome: OutcomeView) -> Seq<char> {
    match outcome {
        OutcomeView::Deleted => "Deleted"@,
        OutcomeView::PermissionDenied => "Permission denied"@,
        OutcomeView::Failed(_) => "Failed to delete"@,
    }
}

/// The text under which the status of a cleared item is listed.
pub open spec fn clear_label(status: ClearStatusView) -> Seq<char> {
    match status {
        ClearStatusView::Removal(outcome) => outcome_label(outcome),
        ClearStatusView::Skipped => "Skipped"@,
        ClearStatusView::Error => "Error"@,
    }
}

/// The text under which an outcome is listed.
pub fn status_label(outcome: &DeletionOutcome) -> (label: &'static str)
    ensures
        label@ == outcome_label(outcome@),
{
    match outcome {
        DeletionOutcome::Deleted => "Deleted",
        DeletionOutcome::PermissionDenied => "Permission denied",
        DeletionOutcome::Failed(_) => "Failed to delete",
    }
}

/// The text under which the status of a cleared item is listed.
pub fn clear_status_label(status: &ClearStatus) -> (label: &'static str)
    ensures
        label@ == clear_label(status@),
{
    match status {
        ClearStatus::Removal(outcome) => status_label(outcome),
        ClearStatus::Skipped => "Skipped",
        ClearStatus::Error => "Error",
    }
}

/// The path and the outcome of each attempt, in order.
pub open spec fn outcome_rows(attempts: Seq<EraseAttempt>) -> Seq<(Seq<char>, OutcomeView)> {
    Seq::new(attempts.len(), |i: int| (attempts[i].path@, attempt_outcome(attempts[i].result)))
}

/// The mathematical value of a list of paths with their outcomes.
pub open spec fn outcome_row_views(rows: Seq<(String, DeletionOutcome)>) -> Seq<(Seq<char>, OutcomeView)> {
    Seq::new(rows.len(), |i: int| (rows[i].0@, rows[i].1@))
}

/// One outcome for each attempt, in order and under the attempt's path:
/// none left out, none added, whatever the order in which the removals ran.
pub fn clean_files(attempts: &Vec<EraseAttempt>) -> (outcomes: Vec<(String, DeletionOutcome)>)
    ensures
        outcome_row_views(outcomes@) == outcome_rows(attempts@),
{
    let mut outcomes: Vec<(String, DeletionOutcome)> = Vec::new();
    let mut i: usize = 0;
    while i < attempts.len()
        invariant
            i <= attempts.len(),
            outcomes@.len() == i,
            forall|j: int|
                0 <= j < i ==> (#[trigger] outcomes@[j]).0@ == attempts@[j].path@ && outcomes@[j].1@
                    == attempt_outcome(attempts@[j].result),
        decreases attempts.len() - i,
    {
        let attempt = &attempts[i];
        outcomes.push((attempt.path.clone(), outcome_of(&attempt.result)));
        i = i + 1;
    }
    assert(outcome_row_views(outcomes@) =~= outcome_rows(attempts@));
    outcomes
}

/// What is to be done with `item` while a directory is cleared: files are
/// removed, other entries are left, unreadable ones are reported.
pub fn clear_action(item: &WalkItem) -> (action: ClearAction)
    ensures
        action == match *item {
            WalkItem::Entry(e) => if e.is_file {
                ClearAction::Remove
            } else {
                ClearAction::Skip
            },
            WalkItem::Failed(_) => ClearAction::Report,
        },
{
    match item {
        WalkItem::Entry(e) => if e.is_file {
            ClearAction::Remove
        } else {
            ClearAction::Skip
        },
        WalkItem::Failed(_) => ClearAction::Report,
    }
}

/// The path under which a cleared item is listed; empty where a failed entry has none.
pub open spec fn cleared_path(item: ClearedItem) -> Seq<char> {
    match item {
        ClearedItem::File(attempt) => attempt.path@,
        ClearedItem::NotAFile(path) => path@,
        ClearedItem::Unreadable(e) => match e.path {
            Some(path) => path@,
            None => Seq::empty(),
        },
    }
}

/// The status of a cleared item: the classified removal for a file, skipped
/// for anything that is no file, an error for an unreadable entry.
pub open spec fn cleared_status(item: ClearedItem) -> ClearStatusView {
    match item {
        ClearedItem::File(attempt) => ClearStatusView::Removal(attempt_outcome(attempt.result)),
        ClearedItem::NotAFile(_) => ClearStatusView::Skipped,
        ClearedItem::Unreadable(_) => ClearStatusView::Error,
    }
}

/// The path and the status of each item of a cleared directory, in order;
/// nothing at all for a directory that could not be listed.
pub open spec fn cleared_rows(readable: bool, items: Seq<ClearedItem>) -> Seq<(Seq<char>, ClearStatusView)> {
    if readable {
        Seq::new(items.len(), |i: int| (cleared_path(items[i]), cleared_status(items[i])))
    } else {
        Seq::empty()
    }
}

/// The mathematical value of a list of paths with their statuses.
pub open spec fn cleared_row_views(rows: Seq<(String, ClearStatus)>) -> Seq<(Seq<char>, ClearStatusView)> {
    Seq::new(rows.len(), |i: int| (rows[i].0@, rows[i].1@))
}

/// One status for each item of a cleared directory, in order; nothing at all
/// for a directory that could not be listed.
pub fn clear_directory(readable: bool, items: &Vec<ClearedItem>) -> (rows: Vec<(String, ClearStatus)>)
    ensures
        cleared_row_views(rows@) == cleared_rows(readable, items@),
{
    let mut rows: Vec<(String, ClearStatus)> = Vec::new();
    if !readable {
        assert(cleared_row_views(rows@) =~= cleared_rows(readable, items@));
        return rows;
    }
    let mut i: usize = 0;
    while i < items.len()
        invariant
            i <= items.len(),
            rows@.len() == i,
            forall|j: int|
                0 <= j < i ==> (#[trigger] rows@[j]).0@ == cleared_path(items@[j]) && rows@[j].1@
                    == cleared_status(items@[j]),
        decreases items.len() - i,
    {
        let row = match &items[i] {
            ClearedItem::File(attempt) => (
                attempt.path.clone(),
                ClearStatus::Removal(outcome_of(&attempt.result)),
            ),
            ClearedItem::NotAFile(path) => (path.clone(), ClearStatus::Skipped),
            ClearedItem::Unreadable(e) => match &e.path {
                Some(path) => (path.clone(), ClearStatus::Error),
                None => (String::new(), ClearStatus::Error),
            },
        };
        rows.push(row);
        i = i + 1;
    }
    assert(cleared_row_views(rows@) =~= cleared_rows(readable, items@));
    rows
}

proof fn lemma_total_size_bound(c: Seq<Candidate>)
    ensures
        0 <= total_size(c) <= c.len() * u64::MAX,
    decreases c.len(),
{
    if c.len() > 0 {
        lemma_total_size_bound(c.drop_last());
        assert((c.len() - 1) * u64::MAX + u64::MAX == c.len() * u64::MAX) by (nonlinear_arith);
    }
}

/// The number of candidates, the sum of their byte lengths and the time
/// that passed between `start_time` and `end_time`.
pub fn report_clean(files_to_clean: &Vec<Candidate>, start_time: Timestamp, end_time: Timestamp) -> (report:
    CleanReport)
    ensures
        report.total_files == files_to_clean@.len(),
        report.total_size == total_size(files_to_clean@),
        report.elapsed_nanos == end_time.as_nanos() - start_time.as_nanos(),
{
    let mut total: u128 = 0;
    let mut i: usize = 0;
    assert(files_to_clean@.take(0) =~= Seq::<Candidate>::empty());
    while i < files_to_clean.len()
        invariant
            i <= files_to_clean.len(),
            total == total_size(files_to_clean@.take(i as int)),
        decreases files_to_clean.len() - i,
    {
        proof {
            assert(files_to_clean@.take(i + 1).drop_last() =~= files_to_clean@.take(i as int));
            lemma_total_size_bound(files_to_clean@.take(i + 1));
            assert((i + 1) * u64::MAX <= u64::MAX * u64::MAX) by (nonlinear_arith)
                requires
                    i + 1 <= u64::MAX,
            ;
            assert(u64::MAX * u64::MAX < u128::MAX) by (nonlinear_arith);
        }
        total = total + files_to_clean[i].size as u128;
        i = i + 1;
    }
    assert(files_to_clean@.take(files_to_clean.len() as int) =~= files_to_clean@);
    let start_ns: i128 = (start_time.secs as i128) * 1_000_000_000 + (start_time.nanos as i128);
    let end_ns: i128 = (end_time.secs as i128) * 1_000_000_000 + (end_time.nanos as i128);
    CleanReport { total_files: files_to_clean.len(), total_size: total, elapsed_nanos: end_ns - start_ns }
}

/// A clean-up yields exactly one outcome for each attempt, under that
/// attempt's path; cleaning nothing yields nothing.
pub proof fn lemma_one_outcome_per_attempt(attempts: Seq<EraseAttempt>)
    ensures
        outcome_rows(attempts).len() == attempts.len(),
        forall|i: int|
            0 <= i < attempts.len() ==> (#[trigger] outcome_rows(attempts)[i]).0 == attempts[i].path@,
        attempts.len() == 0 ==> outcome_rows(attempts) == Seq::<(Seq<char>, OutcomeView)>::empty(),
{
    if attempts.len() == 0 {
        assert(outcome_rows(attempts) =~= Seq::<(Seq<char>, OutcomeView)>::empty());
    }
}

/// A file is listed as deleted exactly when its removal succeeded: a removal
/// that failed, as that of a file already gone does, is never listed as deleted.
pub proof fn lemma_deleted_only_on_success(attempts: Seq<EraseAttempt>, i: int)
    requires
        0 <= i < attempts.len(),
    ensures
        outcome_rows(attempts)[i].1 == OutcomeView::Deleted <==> attempts[i].result is Ok,
        attempts[i].result matches Err(f) && f.kind == IoErrorKind::NotFound ==> outcome_rows(
            attempts,
        )[i].1 is Failed,
{
}

/// While a directory is cleared, whatever is no file is listed as skipped and
/// never as removed, and every item is listed once.
pub proof fn lemma_clear_skips_what_is_no_file(items: Seq<ClearedItem>, i: int)
    requires
        0 <= i < items.len(),
    ensures
        cleared_rows(true, items).len() == items.len(),
        items[i] is NotAFile <==> cleared_rows(true, items)[i].1 == ClearStatusView::Skipped,
        cleared_rows(true, items)[i].1 is Removal <==> items[i] is File,
{
}

} // verus!
