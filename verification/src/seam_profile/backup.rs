//! The backup cycle: the profile directory is archived, the archive is
//! compared with the newest backup by content digest, and only a changed
//! archive is stored, after the older backups have moved up by one slot.
//!
//! The cycle is run by the caller, who does the work on the disk. After each
//! piece of work the outcome is recorded in a `BackupProgress`, which then
//! says what is to be done next.

use crate::utils::file_digest::FileDigest;
use vstd::prelude::*;

verus! {

/// Where the archive of a cycle is written before it is compared.
pub const BACKUP_STAGING_PATH: &'static str = "/tmp/profiles-0.tar.gz";

/// Number of backup slots: slot 0 holds the newest backup.
pub const BACKUP_SLOTS: usize = 4;

/// How a cycle ended.
#[derive(Copy, Clone, Debug, PartialEq, Eq, Structural)]
pub enum BackupOutcome {
    /// The profile directory could not be archived; nothing was touched.
    ArchiveFailed,
    /// There is a newest backup, but the new archive could not be digested;
    /// nothing was touched.
    DigestFailed,
    /// The new archive has the digest of the newest backup; nothing was
    /// touched.
    Unchanged,
    /// The new archive was copied into slot 0.
    Stored,
}

/// What the caller is to do next.
#[derive(Copy, Clone, Debug, PartialEq, Eq, Structural)]
pub enum BackupAction {
    /// Archive the profile directory into the staging file.
    Archive,
    /// Digest the backup in slot 0.
    DigestPrevious,
    /// Digest the staging file.
    DigestCurrent,
    /// Copy slot `from` to slot `to` if slot `from` exists.
    Rotate { from: usize, to: usize },
    /// Copy the staging file into slot 0.
    Store,
    /// The cycle is over.
    Stop(BackupOutcome),
}

/// The model of the progress of a cycle: for each piece of work, whether it
/// was done and what came of it.
pub struct BackupProgressView {
    /// Whether archiving succeeded, once it was tried.
    pub archived: Option<bool>,
    /// The digest of slot 0, once it was asked for; `None` inside where the
    /// slot could not be digested, which is taken for an absent backup.
    pub previous: Option<Option<Seq<u8>>>,
    /// The digest of the staging file, once it was asked for.
    pub current: Option<Option<Seq<u8>>>,
    /// The number of slots moved up so far.
    pub rotated: usize,
    /// Whether the staging file was copied into slot 0.
    pub stored: bool,
}

impl BackupProgressView {
    /// What is to be done next.
    pub open spec fn next(self) -> BackupAction {
        if self.archived.is_none() {
            BackupAction::Archive
        } else if self.archived == Some(false) {
            BackupAction::Stop(BackupOutcome::ArchiveFailed)
        } else if self.previous.is_none() {
            BackupAction::DigestPrevious
        } else if self.previous.unwrap().is_none() {
            if self.stored {
                BackupAction::Stop(BackupOutcome::Stored)
            } else {
                BackupAction::Store
            }
        } else if self.current.is_none() {
            BackupAction::DigestCurrent
        } else if self.current.unwrap().is_none() {
            BackupAction::Stop(BackupOutcome::DigestFailed)
        } else if self.previous.unwrap().unwrap() == self.current.unwrap().unwrap() {
            BackupAction::Stop(BackupOutcome::Unchanged)
        } else if self.rotated < 3 {
            BackupAction::Rotate {
                from: (2 - self.rotated) as usize,
                to: (3 - self.rotated) as usize,
            }
        } else if self.stored {
            BackupAction::Stop(BackupOutcome::Stored)
        } else {
            BackupAction::Store
        }
    }
}

/// The progress of a backup cycle.
pub struct BackupProgress {
    archived: Option<bool>,
    previous: Option<Option<FileDigest>>,
    current: Option<Option<FileDigest>>,
    rotated: usize,
    stored: bool,
}

/// The model of a digest that may be absent.
pub open spec fn digest_view(digest: Option<FileDigest>) -> Option<Seq<u8>> {
    match digest {
        Some(d) => Some(d@),
        None => None,
    }
}

impl View for BackupProgress {
    type V = BackupProgressView;

    closed spec fn view(&self) -> BackupProgressView {
        BackupProgressView {
            archived: self.archived,
            previous: match self.previous {
                Some(digest) => Some(digest_view(digest)),
                None => None,
            },
            current: match self.current {
                Some(digest) => Some(digest_view(digest)),
                None => None,
            },
            rotated: self.rotated,
            stored: self.stored,
        }
    }
}

impl BackupProgress {
    /// The progress of a cycle of which nothing is done yet.
    pub fn new() -> (r: Self)
        ensures
            r@ == (BackupProgressView {
                archived: None,
                previous: None,
                current: None,
                rotated: 0,
                stored: false,
            }),
    {
        BackupProgress { archived: None, previous: None, current: None, rotated: 0, stored: false }
    }

    /// Records whether archiving succeeded.
    pub fn record_archived(&mut self, ok: bool)
        ensures
            final(self)@ == (BackupProgressView { archived: Some(ok), ..old(self)@ }),
    {
        self.archived = Some(ok);
    }

    /// Records the digest of slot 0, `None` where the slot could not be
    /// digested.
    pub fn record_previous(&mut self, digest: Option<FileDigest>)
        ensures
            final(self)@ == (BackupProgressView {
                previous: Some(digest_view(digest)),
                ..old(self)@
            }),
    {
        self.previous = Some(digest);
    }

    /// Records the digest of the staging file, `None` where it could not be
    /// digested.
    pub fn record_current(&mut self, digest: Option<FileDigest>)
        ensures
            final(self)@ == (BackupProgressView {
                current: Some(digest_view(digest)),
                ..old(self)@
            }),
    {
        self.current = Some(digest);
    }

    /// Records that one more slot was moved up, or was found absent. Once
    /// all three are done, nothing more is recorded.
    pub fn record_rotated(&mut self)
        ensures
            final(self)@ == (BackupProgressView {
                rotated: if old(self)@.rotated < 3 {
                    (old(self)@.rotated + 1) as usize
                } else {
                    old(self)@.rotated
                },
                ..old(self)@
            }),
    {
        if self.rotated < 3 {
            self.rotated = self.rotated + 1;
        }
    }

    /// Records that the staging file was copied into slot 0.
    pub fn record_stored(&mut self)
        ensures
            final(self)@ == (BackupProgressView { stored: true, ..old(self)@ }),
    {
        self.stored = true;
    }

    /// What is to be done next.
    pub fn next(&self) -> (r: BackupAction)
        ensures
            r == self@.next(),
    {
        match self.archived {
            None => {
                return BackupAction::Archive;
            },
            Some(false) => {
                return BackupAction::Stop(BackupOutcome::ArchiveFailed);
            },
            Some(true) => {},
        }
        let previous = match &self.previous {
            None => {
                return BackupAction::DigestPrevious;
            },
            Some(None) => {
                if self.stored {
                    return BackupAction::Stop(BackupOutcome::Stored);
                } else {
                    return BackupAction::Store;
                }
            },
            Some(Some(digest)) => digest,
        };
        let current = match &self.current {
            None => {
                return BackupAction::DigestCurrent;
            },
            Some(None) => {
                return BackupAction::Stop(BackupOutcome::DigestFailed);
            },
            Some(Some(digest)) => digest,
        };
        if previous.same_as(current) {
            BackupAction::Stop(BackupOutcome::Unchanged)
        } else if self.rotated < 3 {
            BackupAction::Rotate { from: 2 - self.rotated, to: 3 - self.rotated }
        } else if self.stored {
            BackupAction::Stop(BackupOutcome::Stored)
        } else {
            BackupAction::Store
        }
    }
}

/// The progress of a cycle in which the archive was made and both digests
/// were taken, with `rotated` slots moved up and the archive stored or not.
pub open spec fn compared(
    previous: Seq<u8>,
    current: Seq<u8>,
    rotated: usize,
    stored: bool,
) -> BackupProgressView {
    BackupProgressView {
        archived: Some(true),
        previous: Some(Some(previous)),
        current: Some(Some(current)),
        rotated,
        stored,
    }
}

/// An archive with the digest of the newest backup is never stored and moves
/// no slot: the cycle stops at once. An archive with another digest first
/// moves slot 2 to 3, then 1 to 2, then 0 to 1, and only then is stored.
pub proof fn lemma_backup_cycle(previous: Seq<u8>, current: Seq<u8>, rotated: usize, stored: bool)
    ensures
        previous == current ==> compared(previous, current, rotated, stored).next()
            == BackupAction::Stop(BackupOutcome::Unchanged),
        previous != current ==> compared(previous, current, 0, false).next()
            == (BackupAction::Rotate { from: 2, to: 3 }),
        previous != current ==> compared(previous, current, 1, false).next()
            == (BackupAction::Rotate { from: 1, to: 2 }),
        previous != current ==> compared(previous, current, 2, false).next()
            == (BackupAction::Rotate { from: 0, to: 1 }),
        previous != current ==> compared(previous, current, 3, false).next()
            == BackupAction::Store,
        previous != current ==> compared(previous, current, 3, true).next() == BackupAction::Stop(
            BackupOutcome::Stored,
        ),
{
}

/// Where no newest backup can be digested, the archive is stored without
/// moving any slot and without being digested itself.
pub proof fn lemma_first_backup(progress: BackupProgressView)
    requires
        progress.archived == Some(true),
        progress.previous == Some(None::<Seq<u8>>),
    ensures
        !progress.stored ==> progress.next() == BackupAction::Store,
        progress.stored ==> progress.next() == BackupAction::Stop(BackupOutcome::Stored),
{
}

} // verus!
