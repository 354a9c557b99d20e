use fv_common::{BackupAction, BackupOutcome, BackupProgress, FileDigest};

fn run(
    archived: bool,
    previous: Option<&[u8]>,
    current: Option<&[u8]>,
) -> (Vec<BackupAction>, BackupOutcome) {
    let mut progress = BackupProgress::new();
    let mut trace = Vec::new();
    for _ in 0..16 {
        let action = progress.next();
        match action {
            BackupAction::Archive => progress.record_archived(archived),
            BackupAction::DigestPrevious => {
                progress.record_previous(previous.map(FileDigest::from_bytes))
            }
            BackupAction::DigestCurrent => {
                progress.record_current(current.map(FileDigest::from_bytes))
            }
            BackupAction::Rotate { .. } => progress.record_rotated(),
            BackupAction::Store => progress.record_stored(),
            BackupAction::Stop(outcome) => return (trace, outcome),
        }
        trace.push(action);
    }
    unreachable!("the cycle did not stop")
}

#[test]
fn the_first_backup_is_stored_without_rotation() {
    let (trace, outcome) = run(true, None, Some(b"new"));
    assert_eq!(
        trace,
        vec![
            BackupAction::Archive,
            BackupAction::DigestPrevious,
            BackupAction::Store
        ]
    );
    assert_eq!(outcome, BackupOutcome::Stored);
}

#[test]
fn an_unchanged_archive_is_not_stored_again() {
    let (trace, outcome) = run(true, Some(b"same"), Some(b"same"));
    assert_eq!(
        trace,
        vec![
            BackupAction::Archive,
            BackupAction::DigestPrevious,
            BackupAction::DigestCurrent
        ]
    );
    assert_eq!(outcome, BackupOutcome::Unchanged);
}

#[test]
fn a_changed_archive_moves_the_older_backups_up_first() {
    let (trace, outcome) = run(true, Some(b"old"), Some(b"new"));
    assert_eq!(
        trace,
        vec![
            BackupAction::Archive,
            BackupAction::DigestPrevious,
            BackupAction::DigestCurrent,
            BackupAction::Rotate { from: 2, to: 3 },
            BackupAction::Rotate { from: 1, to: 2 },
            BackupAction::Rotate { from: 0, to: 1 },
            BackupAction::Store
        ]
    );
    assert_eq!(outcome, BackupOutcome::Stored);
}

#[test]
fn a_failed_archive_ends_the_cycle() {
    let (trace, outcome) = run(false, Some(b"old"), Some(b"new"));
    assert_eq!(trace, vec![BackupAction::Archive]);
    assert_eq!(outcome, BackupOutcome::ArchiveFailed);
}

#[test]
fn a_new_archive_that_cannot_be_digested_ends_the_cycle() {
    let (trace, outcome) = run(true, Some(b"old"), None);
    assert_eq!(
        trace,
        vec![
            BackupAction::Archive,
            BackupAction::DigestPrevious,
            BackupAction::DigestCurrent
        ]
    );
    assert_eq!(outcome, BackupOutcome::DigestFailed);
}
