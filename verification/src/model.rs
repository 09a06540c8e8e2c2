//! Plain values that the rules read and produce.

use vstd::prelude::*;

verus! {

/// How an operating-system error is told apart by the rules.
#[derive(Clone, Copy, Debug, PartialEq, Eq, Structural)]
pub enum IoErrorKind {
    PermissionDenied,
    NotFound,
    Other,
}

/// An instant: whole seconds since the Unix epoch and the nanoseconds within that second.
#[derive(Clone, Copy, Debug, PartialEq, Eq, Structural)]
pub struct Timestamp {
    pub secs: i64,
    pub nanos: u32,
}

impl Timestamp {
    /// Nanoseconds since the epoch.
    pub open spec fn as_nanos(self) -> int {
        self.secs * 1_000_000_000 + self.nanos
    }

    pub fn new(secs: i64, nanos: u32) -> (t: Timestamp)
        ensures
            t.secs == secs,
            t.nanos == nanos,
    {
        Timestamp { secs, nanos }
    }
}

/// A failed operating-system call: its kind and the text to report.
#[derive(Clone, Debug, PartialEq, Eq)]
pub struct IoFailure {
    pub kind: IoErrorKind,
    pub detail: String,
}

/// One entry that a directory walk yielded.
#[derive(Clone, Debug, PartialEq, Eq)]
pub struct EntryInfo {
    pub path: String,
    pub is_file: bool,
    /// Extension without the dot, empty where the name has none.
    pub extension: String,
    pub size: u64,
    /// Last modification, where the file system gave one.
    pub modified: Option<Timestamp>,
}

/// An entry that the walk could not read.
#[derive(Clone, Debug, PartialEq, Eq)]
pub struct TraversalError {
    pub path: Option<String>,
    /// The kind of the underlying operating-system error, where there is one.
    pub io_kind: Option<IoErrorKind>,
    pub message: String,
}

/// What a walk yields at each step.
#[derive(Clone, Debug, PartialEq, Eq)]
pub enum WalkItem {
    Entry(EntryInfo),
    Failed(TraversalError),
}

/// A root directory together with everything the walk below it yielded.
#[derive(Clone, Debug, PartialEq, Eq)]
pub struct RootListing {
    pub path: String,
    /// Whether the root itself could be listed.
    pub readable: bool,
    pub items: Vec<WalkItem>,
}

/// A file found eligible for deletion.
#[derive(Clone, Debug, PartialEq, Eq)]
pub struct Candidate {
    pub path: String,
    pub size: u64,
    pub modified: Option<Timestamp>,
}

/// The mathematical value of a [`Candidate`].
pub struct CandidateView {
    pub path: Seq<char>,
    pub size: u64,
    pub modified: Option<Timestamp>,
}

impl View for Candidate {
    type V = CandidateView;

    open spec fn view(&self) -> CandidateView {
        CandidateView { path: self.path@, size: self.size, modified: self.modified }
    }
}

impl EntryInfo {
    /// The candidate that stands for this entry.
    pub open spec fn candidate(self) -> CandidateView {
        CandidateView { path: self.path@, size: self.size, modified: self.modified }
    }

    pub fn to_candidate(&self) -> (c: Candidate)
        ensures
            c@ == self.candidate(),
    {
        Candidate { path: self.path.clone(), size: self.size, modified: self.modified }
    }
}

/// The views of a sequence of candidates, in order.
pub open spec fn candidate_views(s: Seq<Candidate>) -> Seq<CandidateView> {
    s.map_values(|c: Candidate| c@)
}

/// The views of a sequence of strings, in order.
pub open spec fn string_views(s: Seq<String>) -> Seq<Seq<char>> {
    s.map_values(|t: String| t@)
}

/// How a file is removed.
#[derive(Clone, Copy, Debug, PartialEq, Eq, Structural)]
pub enum DeletionMode {
    /// Unlink directly.
    Plain,
    /// Overwrite once with random bytes, then unlink. Best effort only:
    /// copy-on-write file systems, wear levelling and snapshots may keep the old bytes.
    Secure,
}

/// What became of one file.
#[derive(Clone, Debug, PartialEq, Eq)]
pub enum DeletionOutcome {
    Deleted,
    PermissionDenied,
    Failed(String),
}

/// The mathematical value of a [`DeletionOutcome`].
pub enum OutcomeView {
    Deleted,
    PermissionDenied,
    Failed(Seq<char>),
}

impl View for DeletionOutcome {
    type V = OutcomeView;

    open spec fn view(&self) -> OutcomeView {
        match *self {
            DeletionOutcome::Deleted => OutcomeView::Deleted,
            DeletionOutcome::PermissionDenied => OutcomeView::PermissionDenied,
            DeletionOutcome::Failed(detail) => OutcomeView::Failed(detail@),
        }
    }
}

/// The outcome that a failed operating-system call stands for: a denied
/// permission is told apart, every other failure keeps its reason.
pub open spec fn failure_outcome(f: IoFailure) -> OutcomeView {
    if f.kind == IoErrorKind::PermissionDenied {
        OutcomeView::PermissionDenied
    } else {
        OutcomeView::Failed(f.detail@)
    }
}

/// Classifies a failed operating-system call.
pub fn classify_failure(f: &IoFailure) -> (outcome: DeletionOutcome)
    ensures
        outcome@ == failure_outcome(*f),
{
    match f.kind {
        IoErrorKind::PermissionDenied => DeletionOutcome::PermissionDenied,
        _ => DeletionOutcome::Failed(f.detail.clone()),
    }
}

/// The outcome of one attempt to remove a file.
pub open spec fn attempt_outcome(result: Result<(), IoFailure>) -> OutcomeView {
    match result {
        Ok(_) => OutcomeView::Deleted,
        Err(f) => failure_outcome(f),
    }
}

/// A failed attempt is never reported as a deletion, and a file that was no
/// longer there counts as a failure.
pub proof fn lemma_failure_is_never_deleted(f: IoFailure)
    ensures
        attempt_outcome(Err(f)) != OutcomeView::Deleted,
        f.kind == IoErrorKind::NotFound ==> attempt_outcome(Err(f)) == OutcomeView::Failed(f.detail@),
        attempt_outcome(Err(f)) == OutcomeView::PermissionDenied <==> f.kind
            == IoErrorKind::PermissionDenied,
{
}

/// The operating systems whose defaults are known.
#[derive(Clone, Copy, Debug, PartialEq, Eq, Structural)]
pub enum Platform {
    Windows,
    MacOs,
    Linux,
}

} // verus!
