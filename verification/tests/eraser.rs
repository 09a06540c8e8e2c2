use disk_cleaner::eraser::{erase_step, secure_delete, EraseCommand, ErasePhase, EraseReply};
use disk_cleaner::model::{DeletionMode, IoErrorKind, IoFailure};

fn failure(kind: IoErrorKind, detail: &str) -> IoFailure {
    IoFailure { kind, detail: detail.to_string() }
}

fn own_failure(detail: &str) -> EraseCommand {
    EraseCommand::Finish(Err(failure(IoErrorKind::Other, detail)))
}

#[test]
fn plain_removal_unlinks_at_once() {
    let (phase, command) = erase_step(DeletionMode::Plain, ErasePhase::Start, &EraseReply::Begin);
    assert_eq!(phase, ErasePhase::AwaitingUnlink);
    assert_eq!(command, EraseCommand::Unlink);
    let (phase, command) = erase_step(DeletionMode::Plain, phase, &EraseReply::Unlinked);
    assert_eq!(phase, ErasePhase::Done);
    assert_eq!(command, EraseCommand::Finish(Ok(())));
}

#[test]
fn secure_removal_asks_size_overwrites_then_unlinks() {
    let (phase, command) = secure_delete(ErasePhase::Start, &EraseReply::Begin);
    assert_eq!(phase, ErasePhase::AwaitingSize);
    assert_eq!(command, EraseCommand::QuerySize);
    let (phase, command) = secure_delete(phase, &EraseReply::Size(4096));
    assert_eq!(phase, ErasePhase::AwaitingOverwrite);
    match command {
        EraseCommand::Overwrite(bytes) => assert_eq!(bytes.len(), 4096),
        other => panic!("expected an overwrite, got {:?}", other),
    }
    let (phase, command) = secure_delete(phase, &EraseReply::Written);
    assert_eq!(phase, ErasePhase::AwaitingUnlink);
    assert_eq!(command, EraseCommand::Unlink);
    let (phase, command) = secure_delete(phase, &EraseReply::Unlinked);
    assert_eq!(phase, ErasePhase::Done);
    assert_eq!(command, EraseCommand::Finish(Ok(())));
}

#[test]
fn overwrite_has_the_length_of_the_file() {
    for size in [0u64, 1, 17, 1000] {
        let (_, command) = secure_delete(ErasePhase::AwaitingSize, &EraseReply::Size(size));
        match command {
            EraseCommand::Overwrite(bytes) => assert_eq!(bytes.len() as u64, size),
            other => panic!("expected an overwrite, got {:?}", other),
        }
    }
}

#[test]
fn overwrite_bytes_are_not_constant() {
    let (_, first) = secure_delete(ErasePhase::AwaitingSize, &EraseReply::Size(64));
    let (_, second) = secure_delete(ErasePhase::AwaitingSize, &EraseReply::Size(64));
    assert_ne!(first, second);
    assert_ne!(first, EraseCommand::Overwrite(vec![0u8; 64]));
}

#[test]
fn a_failure_ends_the_removal_in_every_phase() {
    let phases = [
        ErasePhase::Start,
        ErasePhase::AwaitingSize,
        ErasePhase::AwaitingOverwrite,
        ErasePhase::AwaitingUnlink,
        ErasePhase::Done,
    ];
    for mode in [DeletionMode::Plain, DeletionMode::Secure] {
        for phase in phases {
            let reply = EraseReply::Failed(failure(IoErrorKind::NotFound, "gone"));
            let (next, command) = erase_step(mode, phase, &reply);
            assert_eq!(next, ErasePhase::Done);
            assert_eq!(command, EraseCommand::Finish(Err(failure(IoErrorKind::NotFound, "gone"))));
        }
    }
}

#[test]
fn permission_failure_keeps_its_kind() {
    let reply = EraseReply::Failed(failure(IoErrorKind::PermissionDenied, "read-only"));
    let (_, command) = erase_step(DeletionMode::Plain, ErasePhase::AwaitingUnlink, &reply);
    assert_eq!(command, EraseCommand::Finish(Err(failure(IoErrorKind::PermissionDenied, "read-only"))));
}

#[test]
fn unexpected_replies_end_the_removal_as_failed() {
    let (phase, command) = erase_step(DeletionMode::Plain, ErasePhase::Start, &EraseReply::Unlinked);
    assert_eq!(phase, ErasePhase::Done);
    assert_eq!(command, own_failure("unexpected reply"));
    let (phase, command) = erase_step(DeletionMode::Plain, ErasePhase::AwaitingSize, &EraseReply::Size(3));
    assert_eq!(phase, ErasePhase::Done);
    assert_eq!(command, own_failure("unexpected reply"));
    let (phase, command) = erase_step(DeletionMode::Plain, ErasePhase::AwaitingOverwrite, &EraseReply::Written);
    assert_eq!(phase, ErasePhase::Done);
    assert_eq!(command, own_failure("unexpected reply"));
    let (phase, command) = secure_delete(ErasePhase::AwaitingUnlink, &EraseReply::Written);
    assert_eq!(phase, ErasePhase::Done);
    assert_eq!(command, own_failure("unexpected reply"));
    let (phase, command) = secure_delete(ErasePhase::Done, &EraseReply::Unlinked);
    assert_eq!(phase, ErasePhase::Done);
    assert_eq!(command, own_failure("unexpected reply"));
}

#[test]
fn plain_removal_never_overwrites() {
    let phases = [
        ErasePhase::Start,
        ErasePhase::AwaitingSize,
        ErasePhase::AwaitingOverwrite,
        ErasePhase::AwaitingUnlink,
        ErasePhase::Done,
    ];
    let replies = [EraseReply::Begin, EraseReply::Size(8), EraseReply::Written, EraseReply::Unlinked];
    for phase in phases {
        for reply in &replies {
            let (next, command) = erase_step(DeletionMode::Plain, phase, reply);
            assert!(!matches!(command, EraseCommand::Overwrite(_) | EraseCommand::QuerySize));
            assert!(next != ErasePhase::AwaitingSize && next != ErasePhase::AwaitingOverwrite);
        }
    }
}
