//! The protocol of an incremental sync: one manifest entry after the other is
//! compared with the local file, fetched where it differs, verified, and only
//! then stored.

use vstd::prelude::*;

use crate::checksum::{checksum_matches, checksum_text};
use crate::sync::{FileManifest, SyncError, SyncManager};
use crate::updater::{is_success, status_is_success};

verus! {

/// What the caller has to do next during a sync. Each step but the last two
/// is answered with a `SyncAnswer`.
#[derive(Debug, Clone, Copy, PartialEq, Eq, Structural)]
pub enum SyncStep {
    /// Create the engine directory; answer `Done` or `Refused`.
    Prepare,
    /// Look at the local file of the entry; answer `Missing`, `Size` or `Refused`.
    Stat(usize),
    /// Read the local file of the entry; answer `Contents` or `Refused`.
    ReadLocal(usize),
    /// Request the file of the entry from the server; answer `Response` or
    /// `Unreachable`.
    Fetch(usize),
    /// Write the bytes of the last response to the local path of the entry,
    /// creating the directories above it; answer `Done` or `Refused`.
    Store(usize),
    /// The tree is in sync; the number of files that were stored.
    Finished(u64),
    /// The sync was given up.
    Failed(SyncError),
}

/// The answer to a step.
#[derive(Debug, Clone)]
pub enum SyncAnswer {
    Done,
    Refused,
    Missing,
    Size(u64),
    Contents(Vec<u8>),
    Unreachable,
    Response { status: u16, body: Vec<u8> },
}

/// An answer as plain values.
pub enum AnswerView {
    Done,
    Refused,
    Missing,
    Size(u64),
    Contents(Seq<u8>),
    Unreachable,
    Response { status: u16, body: Seq<u8> },
}

impl View for SyncAnswer {
    type V = AnswerView;

    open spec fn view(&self) -> AnswerView {
        match self {
            SyncAnswer::Done => AnswerView::Done,
            SyncAnswer::Refused => AnswerView::Refused,
            SyncAnswer::Missing => AnswerView::Missing,
            SyncAnswer::Size(size) => AnswerView::Size(*size),
            SyncAnswer::Contents(bytes) => AnswerView::Contents(bytes@),
            SyncAnswer::Unreachable => AnswerView::Unreachable,
            SyncAnswer::Response { status, body } => AnswerView::Response {
                status: *status,
                body: body@,
            },
        }
    }
}

/// The step whose answer is awaited.
#[derive(Debug, Clone, Copy, PartialEq, Eq, Structural)]
pub enum Awaiting {
    Start,
    Prepared,
    Stat,
    Local,
    Response,
    Stored,
    Over(SyncStep),
}

/// How far a sync has come: the awaited answer, the entry at work, and the
/// number of files stored so far.
#[derive(Debug, Clone, Copy, PartialEq, Eq, Structural)]
pub struct SyncProgress {
    pub awaiting: Awaiting,
    pub index: usize,
    pub synced: u64,
}

/// The sync is over with the given last step.
pub open spec fn over(progress: SyncProgress, last: SyncStep) -> (SyncProgress, SyncStep) {
    (SyncProgress { awaiting: Awaiting::Over(last), ..progress }, last)
}

/// Turns to the entry at `index`, or ends the sync where there is none left.
pub open spec fn turn_to(manifest: FileManifest, index: int, synced: int) -> (
    SyncProgress,
    SyncStep,
) {
    if index < manifest.files.len() {
        (
            SyncProgress { awaiting: Awaiting::Stat, index: index as usize, synced: synced as u64 },
            SyncStep::Stat(index as usize),
        )
    } else {
        (
            SyncProgress {
                awaiting: Awaiting::Over(SyncStep::Finished(synced as u64)),
                index: index as usize,
                synced: synced as u64,
            },
            SyncStep::Finished(synced as u64),
        )
    }
}

/// Requests the file of the entry at work.
pub open spec fn fetch(progress: SyncProgress) -> (SyncProgress, SyncStep) {
    (SyncProgress { awaiting: Awaiting::Response, ..progress }, SyncStep::Fetch(progress.index))
}

/// The protocol of a sync: from the progress and the answer to the step last
/// handed out, the new progress and the next step. At `Start` the answer is
/// not looked at.
pub open spec fn sync_protocol(
    manifest: FileManifest,
    progress: SyncProgress,
    answer: AnswerView,
) -> (
    SyncProgress,
    SyncStep,
) {
    let entry = manifest.files[progress.index as int];
    match progress.awaiting {
        Awaiting::Start => (
            SyncProgress { awaiting: Awaiting::Prepared, index: 0, synced: 0 },
            SyncStep::Prepare,
        ),
        Awaiting::Prepared => match answer {
            AnswerView::Done => turn_to(manifest, 0, 0),
            AnswerView::Refused => over(progress, SyncStep::Failed(SyncError::Filesystem)),
            _ => over(progress, SyncStep::Failed(SyncError::UnexpectedAnswer)),
        },
        Awaiting::Stat => match answer {
            AnswerView::Missing => fetch(progress),
            AnswerView::Size(size) => if size != entry.info.size {
                fetch(progress)
            } else {
                (
                    SyncProgress { awaiting: Awaiting::Local, ..progress },
                    SyncStep::ReadLocal(progress.index),
                )
            },
            AnswerView::Refused => over(progress, SyncStep::Failed(SyncError::Filesystem)),
            _ => over(progress, SyncStep::Failed(SyncError::UnexpectedAnswer)),
        },
        Awaiting::Local => match answer {
            AnswerView::Contents(bytes) => if checksum_text(bytes) != entry.info.checksum@ {
                fetch(progress)
            } else {
                turn_to(manifest, progress.index + 1, progress.synced as int)
            },
            AnswerView::Refused => over(progress, SyncStep::Failed(SyncError::Filesystem)),
            _ => over(progress, SyncStep::Failed(SyncError::UnexpectedAnswer)),
        },
        Awaiting::Response => match answer {
            AnswerView::Unreachable => over(progress, SyncStep::Failed(SyncError::ConnectFailed)),
            AnswerView::Response { status, body } => if !is_success(status) {
                over(
                    progress,
                    SyncStep::Failed(SyncError::DownloadFailed { entry: progress.index, status }),
                )
            } else if checksum_text(body) != entry.info.checksum@ {
                over(
                    progress,
                    SyncStep::Failed(SyncError::ChecksumMismatch { entry: progress.index }),
                )
            } else {
                (
                    SyncProgress { awaiting: Awaiting::Stored, ..progress },
                    SyncStep::Store(progress.index),
                )
            },
            _ => over(progress, SyncStep::Failed(SyncError::UnexpectedAnswer)),
        },
        Awaiting::Stored => match answer {
            AnswerView::Done => turn_to(manifest, progress.index + 1, progress.synced + 1),
            AnswerView::Refused => over(progress, SyncStep::Failed(SyncError::Filesystem)),
            _ => over(progress, SyncStep::Failed(SyncError::UnexpectedAnswer)),
        },
        Awaiting::Over(last) => (progress, last),
    }
}

impl SyncProgress {
    /// The progress fits the manifest: while an entry is at work it is one of
    /// the manifest's, no more files were stored than entries were passed,
    /// and a sync that is over ended with `Finished` or `Failed`.
    pub open spec fn fits(&self, manifest: &FileManifest) -> bool {
        &&& self.synced <= self.index
        &&& self.index <= manifest.files.len()
        &&& (self.awaiting is Stat || self.awaiting is Local || self.awaiting is Response
            || self.awaiting is Stored) ==> self.index < manifest.files.len()
        &&& self.awaiting matches Awaiting::Over(last) ==> last is Finished || last is Failed
    }

    /// Whether the progress fits the manifest.
    pub fn fits_manifest(&self, manifest: &FileManifest) -> (res: bool)
        ensures
            res == self.fits(manifest),
    {
        let n = manifest.files.len();
        let at_work = match self.awaiting {
            Awaiting::Stat | Awaiting::Local | Awaiting::Response | Awaiting::Stored => true,
            _ => false,
        };
        let ended = match self.awaiting {
            Awaiting::Over(SyncStep::Finished(_)) => true,
            Awaiting::Over(SyncStep::Failed(_)) => true,
            Awaiting::Over(_) => false,
            _ => true,
        };
        self.synced <= self.index as u64 && self.index <= n && (!at_work || self.index < n)
            && ended
    }

    /// The progress of a sync that has not begun.
    pub fn start() -> (res: SyncProgress)
        ensures
            res == (SyncProgress { awaiting: Awaiting::Start, index: 0, synced: 0 }),
            forall|manifest: FileManifest| res.fits(&manifest),
    {
        SyncProgress { awaiting: Awaiting::Start, index: 0, synced: 0 }
    }
}

impl SyncManager {
    /// Syncs the engine tree with a manifest, step by step. Begin with
    /// `SyncProgress::start()`; carry out the step that comes back and call
    /// again with the progress that came back and the answer to that step,
    /// until the step is `Finished` or `Failed`. A file is stored only after
    /// the bytes fetched for it were found to hash to its checksum.
    pub fn sync_files(manifest: &FileManifest, progress: SyncProgress, answer: &SyncAnswer) -> (res:
        (SyncProgress, SyncStep))
        requires
            progress.fits(manifest),
        ensures
            res == sync_protocol(*manifest, progress, answer@),
            res.0.fits(manifest),
    {
        match progress.awaiting {
            Awaiting::Start => (
                SyncProgress { awaiting: Awaiting::Prepared, index: 0, synced: 0 },
                SyncStep::Prepare,
            ),
            Awaiting::Prepared => match answer {
                SyncAnswer::Done => Self::turn_to(manifest, 0, 0),
                SyncAnswer::Refused => Self::give_up(progress, SyncError::Filesystem),
                _ => Self::give_up(progress, SyncError::UnexpectedAnswer),
            },
            Awaiting::Stat => match answer {
                SyncAnswer::Missing => Self::fetch(progress),
                SyncAnswer::Size(size) => {
                    if *size != manifest.files[progress.index].info.size {
                        Self::fetch(progress)
                    } else {
                        (
                            SyncProgress {
                                awaiting: Awaiting::Local,
                                index: progress.index,
                                synced: progress.synced,
                            },
                            SyncStep::ReadLocal(progress.index),
                        )
                    }
                },
                SyncAnswer::Refused => Self::give_up(progress, SyncError::Filesystem),
                _ => Self::give_up(progress, SyncError::UnexpectedAnswer),
            },
            Awaiting::Local => match answer {
                SyncAnswer::Contents(bytes) => {
                    let expected = manifest.files[progress.index].info.checksum.as_str();
                    if !checksum_matches(bytes.as_slice(), expected) {
                        Self::fetch(progress)
                    } else {
                        Self::turn_to(manifest, progress.index + 1, progress.synced)
                    }
                },
                SyncAnswer::Refused => Self::give_up(progress, SyncError::Filesystem),
                _ => Self::give_up(progress, SyncError::UnexpectedAnswer),
            },
            Awaiting::Response => match answer {
                SyncAnswer::Unreachable => Self::give_up(progress, SyncError::ConnectFailed),
                SyncAnswer::Response { status, body } => {
                    let expected = manifest.files[progress.index].info.checksum.as_str();
                    if !status_is_success(*status) {
                        Self::give_up(
                            progress,
                            SyncError::DownloadFailed { entry: progress.index, status: *status },
                        )
                    } else if !checksum_matches(body.as_slice(), expected) {
                        Self::give_up(
                            progress,
                            SyncError::ChecksumMismatch { entry: progress.index },
                        )
                    } else {
                        (
                            SyncProgress {
                                awaiting: Awaiting::Stored,
                                index: progress.index,
                                synced: progress.synced,
                            },
                            SyncStep::Store(progress.index),
                        )
                    }
                },
                _ => Self::give_up(progress, SyncError::UnexpectedAnswer),
            },
            Awaiting::Stored => match answer {
                SyncAnswer::Done => Self::turn_to(
                    manifest,
                    progress.index + 1,
                    progress.synced + 1,
                ),
                SyncAnswer::Refused => Self::give_up(progress, SyncError::Filesystem),
                _ => Self::give_up(progress, SyncError::UnexpectedAnswer),
            },
            Awaiting::Over(last) => (progress, last),
        }
    }

    fn turn_to(manifest: &FileManifest, index: usize, synced: u64) -> (res: (
        SyncProgress,
        SyncStep,
    ))
        requires
            synced <= index <= manifest.files.len(),
        ensures
            res == turn_to(*manifest, index as int, synced as int),
            res.0.fits(manifest),
    {
        if index < manifest.files.len() {
            (SyncProgress { awaiting: Awaiting::Stat, index, synced }, SyncStep::Stat(index))
        } else {
            (
                SyncProgress { awaiting: Awaiting::Over(SyncStep::Finished(synced)), index, synced },
                SyncStep::Finished(synced),
            )
        }
    }

    fn fetch(progress: SyncProgress) -> (res: (SyncProgress, SyncStep))
        ensures
            res == fetch(progress),
    {
        (
            SyncProgress {
                awaiting: Awaiting::Response,
                index: progress.index,
                synced: progress.synced,
            },
            SyncStep::Fetch(progress.index),
        )
    }

    fn give_up(progress: SyncProgress, error: SyncError) -> (res: (SyncProgress, SyncStep))
        ensures
            res == over(progress, SyncStep::Failed(error)),
    {
        (
            SyncProgress {
                awaiting: Awaiting::Over(SyncStep::Failed(error)),
                index: progress.index,
                synced: progress.synced,
            },
            SyncStep::Failed(error),
        )
    }
}

/// The checksum gate: bytes that do not hash to the checksum of their
/// manifest entry end the sync with an error, and a file is handed out to be
/// stored only in answer to a successful response whose bytes hash to the
/// checksum of the entry at work.
pub proof fn lemma_checksum_gate(manifest: FileManifest, progress: SyncProgress, answer: AnswerView)
    requires
        progress.fits(&manifest),
    ensures
        progress.awaiting is Response && (answer matches AnswerView::Response { body, .. }
            && checksum_text(body) != manifest.files[progress.index as int].info.checksum@)
            ==> sync_protocol(manifest, progress, answer).1 is Failed,
        sync_protocol(manifest, progress, answer).1 matches SyncStep::Store(entry) ==> {
            &&& progress.awaiting is Response
            &&& entry == progress.index
            &&& answer matches AnswerView::Response { status, body }
            &&& is_success(status)
            &&& checksum_text(body) == manifest.files[entry as int].info.checksum@
        },
{
}

/// A file is requested from the server only where the local file is missing,
/// has another size than the manifest gives, or hashes to another checksum.
pub proof fn lemma_fetch_only_what_differs(
    manifest: FileManifest,
    progress: SyncProgress,
    answer: AnswerView,
)
    requires
        progress.fits(&manifest),
    ensures
        sync_protocol(manifest, progress, answer).1 matches SyncStep::Fetch(entry) ==> {
            let info = manifest.files[entry as int].info;
            &&& entry == progress.index
            &&& (progress.awaiting is Stat && answer is Missing) || (progress.awaiting is Stat && (
            answer matches AnswerView::Size(size) && size != info.size)) || (progress.awaiting
                is Local && (answer matches AnswerView::Contents(bytes) && checksum_text(bytes)
                != info.checksum@))
        },
{
}

} // verus!
