//! The full-archive path of a sync: the engine tree is cleared, the archive
//! of the whole tree is fetched and extracted in its place.

use vstd::prelude::*;

use crate::sync::{SyncError, SyncManager};
use crate::updater::{is_success, status_is_success};

verus! {

/// What the caller has to do next while the full archive is installed. Each
/// step but the last two is answered with an `ArchiveAnswer`.
#[derive(Debug, Clone, Copy, PartialEq, Eq, Structural)]
pub enum ArchiveStep {
    /// Report whether the engine directory exists; answer `Exists`.
    ProbeTree,
    /// Remove the engine directory with all it holds; answer `Done` or `Refused`.
    ClearTree,
    /// Request the archive from the server; answer `Response` or `Unreachable`.
    Fetch,
    /// Write the bytes of the response to the archive's path; answer `Done`
    /// or `Refused`.
    WriteArchive,
    /// Extract the archive into the engine directory; answer `Done` or `Refused`.
    Extract,
    /// Delete the archive; answer `Done` or `Refused`.
    RemoveArchive,
    /// The engine tree holds what the archive held.
    Finished,
    /// The installation was given up.
    Failed(SyncError),
}

/// The answer to a step.
#[derive(Debug, Clone, Copy, PartialEq, Eq, Structural)]
pub enum ArchiveAnswer {
    Done,
    Refused,
    Exists(bool),
    Unreachable,
    Response { status: u16 },
}

/// The step whose answer is awaited.
#[derive(Debug, Clone, Copy, PartialEq, Eq, Structural)]
pub enum ArchivePhase {
    Start,
    TreeProbed,
    TreeCleared,
    Fetched,
    Written,
    Extracted,
    Removed,
    Over(ArchiveStep),
}

/// The installation is over with the given last step.
pub open spec fn archive_over(last: ArchiveStep) -> (ArchivePhase, ArchiveStep) {
    (ArchivePhase::Over(last), last)
}

/// What an answer other than the one hoped for comes to: a refusal of the
/// file system, or an answer that does not fit the step.
pub open spec fn archive_refusal(answer: ArchiveAnswer) -> (ArchivePhase, ArchiveStep) {
    if answer is Refused {
        archive_over(ArchiveStep::Failed(SyncError::Filesystem))
    } else {
        archive_over(ArchiveStep::Failed(SyncError::UnexpectedAnswer))
    }
}

/// The protocol of the full-archive path: from the phase and the answer to
/// the step last handed out, the next phase and the next step. In `Start`
/// the answer is not looked at.
pub open spec fn archive_protocol(phase: ArchivePhase, answer: ArchiveAnswer) -> (
    ArchivePhase,
    ArchiveStep,
) {
    match phase {
        ArchivePhase::Start => (ArchivePhase::TreeProbed, ArchiveStep::ProbeTree),
        ArchivePhase::TreeProbed => match answer {
            ArchiveAnswer::Exists(true) => (ArchivePhase::TreeCleared, ArchiveStep::ClearTree),
            ArchiveAnswer::Exists(false) => (ArchivePhase::Fetched, ArchiveStep::Fetch),
            _ => archive_refusal(answer),
        },
        ArchivePhase::TreeCleared => match answer {
            ArchiveAnswer::Done => (ArchivePhase::Fetched, ArchiveStep::Fetch),
            _ => archive_refusal(answer),
        },
        ArchivePhase::Fetched => match answer {
            ArchiveAnswer::Unreachable => archive_over(
                ArchiveStep::Failed(SyncError::ConnectFailed),
            ),
            ArchiveAnswer::Response { status } => if is_success(status) {
                (ArchivePhase::Written, ArchiveStep::WriteArchive)
            } else {
                archive_over(ArchiveStep::Failed(SyncError::ServerError(status)))
            },
            _ => archive_refusal(answer),
        },
        ArchivePhase::Written => match answer {
            ArchiveAnswer::Done => (ArchivePhase::Extracted, ArchiveStep::Extract),
            _ => archive_refusal(answer),
        },
        ArchivePhase::Extracted => match answer {
            ArchiveAnswer::Done => (ArchivePhase::Removed, ArchiveStep::RemoveArchive),
            _ => archive_refusal(answer),
        },
        ArchivePhase::Removed => match answer {
            ArchiveAnswer::Done => archive_over(ArchiveStep::Finished),
            _ => archive_refusal(answer),
        },
        ArchivePhase::Over(last) => (phase, last),
    }
}

impl SyncManager {
    /// Installs the full archive, step by step. Begin with
    /// `ArchivePhase::Start`; carry out the step that comes back and call
    /// again with the phase that came back and the answer to that step, until
    /// the step is `Finished` or `Failed`. An existing tree is cleared before
    /// anything is fetched, and nothing is extracted over a tree that could
    /// not be cleared.
    pub fn download_full_archive(phase: ArchivePhase, answer: ArchiveAnswer) -> (res: (
        ArchivePhase,
        ArchiveStep,
    ))
        ensures
            res == archive_protocol(phase, answer),
    {
        match phase {
            ArchivePhase::Start => (ArchivePhase::TreeProbed, ArchiveStep::ProbeTree),
            ArchivePhase::TreeProbed => match answer {
                ArchiveAnswer::Exists(true) => (ArchivePhase::TreeCleared, ArchiveStep::ClearTree),
                ArchiveAnswer::Exists(false) => (ArchivePhase::Fetched, ArchiveStep::Fetch),
                _ => Self::archive_refusal(answer),
            },
            ArchivePhase::TreeCleared => match answer {
                ArchiveAnswer::Done => (ArchivePhase::Fetched, ArchiveStep::Fetch),
                _ => Self::archive_refusal(answer),
            },
            ArchivePhase::Fetched => match answer {
                ArchiveAnswer::Unreachable => (
                    ArchivePhase::Over(ArchiveStep::Failed(SyncError::ConnectFailed)),
                    ArchiveStep::Failed(SyncError::ConnectFailed),
                ),
                ArchiveAnswer::Response { status } => if status_is_success(status) {
                    (ArchivePhase::Written, ArchiveStep::WriteArchive)
                } else {
                    (
                        ArchivePhase::Over(ArchiveStep::Failed(SyncError::ServerError(status))),
                        ArchiveStep::Failed(SyncError::ServerError(status)),
                    )
                },
                _ => Self::archive_refusal(answer),
            },
            ArchivePhase::Written => match answer {
                ArchiveAnswer::Done => (ArchivePhase::Extracted, ArchiveStep::Extract),
                _ => Self::archive_refusal(answer),
            },
            ArchivePhase::Extracted => match answer {
                ArchiveAnswer::Done => (ArchivePhase::Removed, ArchiveStep::RemoveArchive),
                _ => Self::archive_refusal(answer),
            },
            ArchivePhase::Removed => match answer {
                ArchiveAnswer::Done => (
                    ArchivePhase::Over(ArchiveStep::Finished),
                    ArchiveStep::Finished,
                ),
                _ => Self::archive_refusal(answer),
            },
            ArchivePhase::Over(last) => (phase, last),
        }
    }

    fn archive_refusal(answer: ArchiveAnswer) -> (res: (ArchivePhase, ArchiveStep))
        ensures
            res == archive_refusal(answer),
    {
        match answer {
            ArchiveAnswer::Refused => (
                ArchivePhase::Over(ArchiveStep::Failed(SyncError::Filesystem)),
                ArchiveStep::Failed(SyncError::Filesystem),
            ),
            _ => (
                ArchivePhase::Over(ArchiveStep::Failed(SyncError::UnexpectedAnswer)),
                ArchiveStep::Failed(SyncError::UnexpectedAnswer),
            ),
        }
    }
}

/// A file tree: the content of each file by its path.
pub type Tree = Map<Seq<char>, Seq<u8>>;

/// The local side of a full-archive installation: the engine tree, `None`
/// where the directory does not exist, and whether the archive file lies on
/// disk.
pub struct Disk {
    pub tree: Option<Tree>,
    pub archive_stored: bool,
}

/// The world around one installation: the status with which the server
/// answers, or `None` where it cannot be reached, what the archive it serves
/// holds, and which operations the file system refuses.
pub struct Surroundings {
    pub server: Option<u16>,
    pub archive: Tree,
    pub clear_refused: bool,
    pub write_refused: bool,
    pub extract_refused: bool,
    pub remove_refused: bool,
}

/// What carrying out a step does to the disk, and the answer it gives.
/// Extracting writes every file of the archive into the tree and leaves what
/// else the tree holds.
pub open spec fn archive_effect(disk: Disk, step: ArchiveStep, around: Surroundings) -> (
    Disk,
    ArchiveAnswer,
) {
    match step {
        ArchiveStep::ProbeTree => (disk, ArchiveAnswer::Exists(disk.tree is Some)),
        ArchiveStep::ClearTree => if around.clear_refused {
            (disk, ArchiveAnswer::Refused)
        } else {
            (Disk { tree: None, ..disk }, ArchiveAnswer::Done)
        },
        ArchiveStep::Fetch => match around.server {
            Some(status) => (disk, ArchiveAnswer::Response { status }),
            None => (disk, ArchiveAnswer::Unreachable),
        },
        ArchiveStep::WriteArchive => if around.write_refused {
            (disk, ArchiveAnswer::Refused)
        } else {
            (Disk { archive_stored: true, ..disk }, ArchiveAnswer::Done)
        },
        ArchiveStep::Extract => if around.extract_refused || !disk.archive_stored {
            (disk, ArchiveAnswer::Refused)
        } else {
            (
                Disk {
                    tree: Some(
                        match disk.tree {
                            Some(held) => held.union_prefer_right(around.archive),
                            None => around.archive,
                        },
                    ),
                    ..disk
                },
                ArchiveAnswer::Done,
            )
        },
        ArchiveStep::RemoveArchive => if around.remove_refused {
            (disk, ArchiveAnswer::Refused)
        } else {
            (Disk { archive_stored: false, ..disk }, ArchiveAnswer::Done)
        },
        ArchiveStep::Finished => (disk, ArchiveAnswer::Done),
        ArchiveStep::Failed(_) => (disk, ArchiveAnswer::Refused),
    }
}

/// The disk and the last step after the protocol has been followed from a
/// phase for at most `rounds` steps.
pub open spec fn archive_run(
    disk: Disk,
    phase: ArchivePhase,
    answer: ArchiveAnswer,
    around: Surroundings,
    rounds: nat,
) -> (Disk, ArchiveStep)
    decreases rounds,
{
    let (next, step) = archive_protocol(phase, answer);
    if rounds == 0 || step is Finished || step is Failed {
        (disk, step)
    } else {
        let (after, reply) = archive_effect(disk, step, around);
        archive_run(after, next, reply, around, (rounds - 1) as nat)
    }
}

/// The disk and the outcome of a whole full-archive installation.
pub open spec fn archive_installed(disk: Disk, around: Surroundings) -> (Disk, ArchiveStep) {
    archive_run(disk, ArchivePhase::Start, ArchiveAnswer::Done, around, 8)
}

/// A full-archive installation comes to an end within eight steps.
pub proof fn lemma_archive_terminates(disk: Disk, around: Surroundings)
    ensures
        archive_installed(disk, around).1 is Finished || archive_installed(disk, around).1
            is Failed,
{
    reveal_with_fuel(archive_run, 9);
}

/// Whenever a full-archive installation finishes, the engine tree holds
/// exactly what the archive holds, whatever it held before, and the archive
/// file is gone.
pub proof fn lemma_archive_replaces_tree(disk: Disk, around: Surroundings)
    ensures
        archive_installed(disk, around).1 is Finished ==> {
            &&& archive_installed(disk, around).0.tree == Some(around.archive)
            &&& !archive_installed(disk, around).0.archive_stored
        },
{
    reveal_with_fuel(archive_run, 9);
}

/// Where the server serves the archive and the file system refuses nothing,
/// the installation finishes.
pub proof fn lemma_archive_succeeds(disk: Disk, around: Surroundings)
    requires
        around.server matches Some(status) && is_success(status),
        !around.clear_refused,
        !around.write_refused,
        !around.extract_refused,
        !around.remove_refused,
    ensures
        archive_installed(disk, around).1 is Finished,
        archive_installed(disk, around).0.tree == Some(around.archive),
{
    reveal_with_fuel(archive_run, 9);
}

/// Where nothing was fetched, the tree was at most cleared: an installation
/// that fails before extracting never leaves a mixed tree.
pub proof fn lemma_archive_never_merges(disk: Disk, around: Surroundings)
    ensures
        ({
            let after = archive_installed(disk, around).0.tree;
            after == disk.tree || after is None || after == Some(around.archive)
        }),
{
    reveal_with_fuel(archive_run, 9);
}

} // verus!
