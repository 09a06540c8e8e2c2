//! Removing one file, step by step.
//!
//! The caller performs each command against the file system and hands back
//! the reply; the steps here decide what comes next. A secure erase is a
//! single overwrite with random bytes before the unlink. It is best effort:
//! copy-on-write file systems, flash wear levelling and snapshots may keep
//! the old content.

use vstd::prelude::*;
use rand::Rng;
use crate::model::{DeletionMode, IoErrorKind, IoFailure};

verus! {

/// Where the removal of one file stands.
#[derive(Clone, Copy, Debug, PartialEq, Eq, Structural)]
pub enum ErasePhase {
    Start,
    AwaitingSize,
    AwaitingOverwrite,
    AwaitingUnlink,
    Done,
}

/// What the file system answered to the last command.
#[derive(Clone, Debug, PartialEq, Eq)]
pub enum EraseReply {
    /// Nothing was commanded yet.
    Begin,
    /// The file's current length in bytes.
    Size(u64),
    /// The overwrite went through.
    Written,
    /// The file is unlinked.
    Unlinked,
    /// The command failed.
    Failed(IoFailure),
}

/// What the caller is to do next.
#[derive(Debug, PartialEq, Eq)]
pub enum EraseCommand {
    QuerySize,
    /// Replace the file's whole content by these bytes.
    Overwrite(Vec<u8>),
    Unlink,
    /// Nothing more: the removal ended with this result.
    Finish(Result<(), IoFailure>),
}

/// The phase that follows `phase` on `reply`.
pub open spec fn next_phase(mode: DeletionMode, phase: ErasePhase, reply: EraseReply) -> ErasePhase {
    match (phase, reply) {
        (ErasePhase::Start, EraseReply::Begin) => match mode {
            DeletionMode::Plain => ErasePhase::AwaitingUnlink,
            DeletionMode::Secure => ErasePhase::AwaitingSize,
        },
        (ErasePhase::AwaitingSize, EraseReply::Size(n)) => if mode == DeletionMode::Secure && n
            <= usize::MAX {
            ErasePhase::AwaitingOverwrite
        } else {
            ErasePhase::Done
        },
        (ErasePhase::AwaitingOverwrite, EraseReply::Written) => if mode == DeletionMode::Secure {
            ErasePhase::AwaitingUnlink
        } else {
            ErasePhase::Done
        },
        _ => ErasePhase::Done,
    }
}

/// `failure` is the library's own failure with the text `detail`.
pub open spec fn is_own_failure(result: Result<(), IoFailure>, detail: Seq<char>) -> bool {
    result matches Err(f) && f.kind == IoErrorKind::Other && f.detail@ == detail
}

/// `result` is that with which the removal ends when `reply` arrives in
/// `phase`: success on the unlink, the file system's own failure where it
/// reported one, and a failure of the library's own for a file too large to
/// overwrite or a reply that the phase does not expect.
pub open spec fn result_fits(
    mode: DeletionMode,
    phase: ErasePhase,
    reply: EraseReply,
    result: Result<(), IoFailure>,
) -> bool {
    match (phase, reply) {
        (ErasePhase::AwaitingUnlink, EraseReply::Unlinked) => result is Ok,
        (_, EraseReply::Failed(f)) => result == Err::<(), IoFailure>(f),
        (ErasePhase::AwaitingSize, EraseReply::Size(_)) => if mode == DeletionMode::Secure {
            is_own_failure(result, "file too large to overwrite"@)
        } else {
            is_own_failure(result, "unexpected reply"@)
        },
        _ => is_own_failure(result, "unexpected reply"@),
    }
}

/// `command` is what the step from `phase` on `reply` asks for.
pub open spec fn command_fits(
    mode: DeletionMode,
    phase: ErasePhase,
    reply: EraseReply,
    command: EraseCommand,
) -> bool {
    match next_phase(mode, phase, reply) {
        ErasePhase::Start => false,
        ErasePhase::AwaitingSize => command is QuerySize,
        ErasePhase::AwaitingOverwrite => command matches EraseCommand::Overwrite(bytes) && reply
            matches EraseReply::Size(n) && bytes@.len() == n,
        ErasePhase::AwaitingUnlink => command is Unlink,
        ErasePhase::Done => command matches EraseCommand::Finish(result) && result_fits(
            mode,
            phase,
            reply,
            result,
        ),
    }
}

fn own_failure(detail: &str) -> (command: EraseCommand)
    ensures
        command matches EraseCommand::Finish(result) && is_own_failure(result, detail@),
{
    EraseCommand::Finish(Err(IoFailure { kind: IoErrorKind::Other, detail: detail.to_owned() }))
}

/// Fills a fresh buffer through `rand::Rng::fill` on `rand::thread_rng()`.
/// Trusted: the buffer has the length asked for. Its content differs from
/// call to call, and nothing is claimed about it.
#[verifier::external_body]
pub(crate) fn random_bytes(len: usize) -> (bytes: Vec<u8>)
    ensures
        bytes@.len() == len,
{
    let mut data = vec![0u8; len];
    rand::thread_rng().fill(&mut data[..]);
    data
}

/// One step of a removal: from the phase and the file system's reply to the
/// next phase and the next command.
pub fn erase_step(mode: DeletionMode, phase: ErasePhase, reply: &EraseReply) -> (next: (
    ErasePhase,
    EraseCommand,
))
    ensures
        next.0 == next_phase(mode, phase, *reply),
        command_fits(mode, phase, *reply, next.1),
{
    match (phase, reply) {
        (ErasePhase::Start, EraseReply::Begin) => match mode {
            DeletionMode::Plain => (ErasePhase::AwaitingUnlink, EraseCommand::Unlink),
            DeletionMode::Secure => (ErasePhase::AwaitingSize, EraseCommand::QuerySize),
        },
        (ErasePhase::AwaitingSize, EraseReply::Size(n)) => {
            match mode {
                DeletionMode::Secure => {
                    if *n <= usize::MAX as u64 {
                        let bytes = random_bytes(*n as usize);
                        (ErasePhase::AwaitingOverwrite, EraseCommand::Overwrite(bytes))
                    } else {
                        (ErasePhase::Done, own_failure("file too large to overwrite"))
                    }
                },
                DeletionMode::Plain => (ErasePhase::Done, own_failure("unexpected reply")),
            }
        },
        (ErasePhase::AwaitingOverwrite, EraseReply::Written) => match mode {
            DeletionMode::Secure => (ErasePhase::AwaitingUnlink, EraseCommand::Unlink),
            DeletionMode::Plain => (ErasePhase::Done, own_failure("unexpected reply")),
        },
        (ErasePhase::AwaitingUnlink, EraseReply::Unlinked) => (ErasePhase::Done, EraseCommand::Finish(Ok(()))),
        (_, EraseReply::Failed(f)) => (
            ErasePhase::Done,
            EraseCommand::Finish(Err(IoFailure { kind: f.kind, detail: f.detail.clone() })),
        ),
        _ => (ErasePhase::Done, own_failure("unexpected reply")),
    }
}

/// One step of a secure removal: size, overwrite with random bytes, unlink.
pub fn secure_delete(phase: ErasePhase, reply: &EraseReply) -> (next: (ErasePhase, EraseCommand))
    ensures
        next.0 == next_phase(DeletionMode::Secure, phase, *reply),
        command_fits(DeletionMode::Secure, phase, *reply, next.1),
{
    erase_step(DeletionMode::Secure, phase, reply)
}

/// A plain removal never asks for the size nor for an overwrite: besides the
/// end, its only command is the unlink, given once at the start.
pub proof fn lemma_plain_only_unlinks(phase: ErasePhase, reply: EraseReply)
    ensures
        next_phase(DeletionMode::Plain, phase, reply) != ErasePhase::AwaitingSize,
        next_phase(DeletionMode::Plain, phase, reply) != ErasePhase::AwaitingOverwrite,
        next_phase(DeletionMode::Plain, phase, reply) == ErasePhase::AwaitingUnlink <==> phase
            == ErasePhase::Start && reply == EraseReply::Begin,
{
}

/// A secure removal unlinks only after its overwrite went through, and
/// overwrites only after it learnt the size.
pub proof fn lemma_secure_overwrites_before_unlink(phase: ErasePhase, reply: EraseReply)
    ensures
        next_phase(DeletionMode::Secure, phase, reply) == ErasePhase::AwaitingUnlink <==> phase
            == ErasePhase::AwaitingOverwrite && reply == EraseReply::Written,
        next_phase(DeletionMode::Secure, phase, reply) == ErasePhase::AwaitingOverwrite ==> phase
            == ErasePhase::AwaitingSize && reply is Size,
{
}

/// A removal succeeds only on the reply that the file is unlinked, given to
/// the unlink; a failure reply always ends it, with that failure.
pub proof fn lemma_success_only_after_unlink(
    mode: DeletionMode,
    phase: ErasePhase,
    reply: EraseReply,
    result: Result<(), IoFailure>,
)
    requires
        result_fits(mode, phase, reply, result),
    ensures
        result is Ok <==> phase == ErasePhase::AwaitingUnlink && reply == EraseReply::Unlinked,
        result is Ok ==> next_phase(mode, phase, reply) == ErasePhase::Done,
        reply matches EraseReply::Failed(f) ==> next_phase(mode, phase, reply) == ErasePhase::Done
            && result == Err::<(), IoFailure>(f),
        next_phase(mode, phase, reply) != ErasePhase::Start,
{
}

} // verus!
