//! Self-update: deciding whether a newer launcher is offered, accepting its
//! bytes only when they hash to the announced checksum, and swapping it in by
//! renames that can be rolled back.

use vstd::prelude::*;

use crate::checksum::{checksum_matches, checksum_text};
use crate::config::{Config, LAUNCHER_VERSION};
use crate::paths::LocalPath;
use crate::text::{concat2, concat3, str_eq};

verus! {

/// The extension that the running executable's path gets while it is kept as
/// a backup.
pub const BACKUP_EXTENSION: &'static str = "old";

/// The name, inside the installation directory, under which a downloaded
/// launcher waits to be applied.
pub const UPDATE_FILE_NAME: &'static str = "launcher_update.exe";

/// The time, in seconds, after which a request to the update server is given up.
pub const UPDATE_TIMEOUT_SECS: u64 = 30;

/// A newer launcher that the server offers, with the checksum of its binary.
#[derive(Debug, Clone)]
pub struct UpdateInfo {
    pub version: String,
    pub checksum: String,
}

/// What the server reports about the launcher it offers.
#[derive(Debug, Clone)]
pub struct VersionResponse {
    pub version: String,
    pub checksum: Option<String>,
}

/// How a request to the server ended.
#[derive(Debug, Clone)]
pub enum VersionReply {
    /// No connection, or no answer in time.
    Unreachable,
    /// An answer with the given status; `body` is what was read from it, or
    /// `None` where it was no version report.
    Answered { status: u16, body: Option<VersionResponse> },
}

/// Why a self-update was given up.
#[derive(Debug, Clone, Copy, PartialEq, Eq, Structural)]
pub enum UpdateError {
    /// The update server could not be reached.
    ConnectFailed,
    /// The server's answer was no version report.
    ParseFailed,
    /// A different version is offered without a checksum: it cannot be verified.
    MissingChecksum,
    /// The binary could not be downloaded; the status the server gave.
    DownloadFailed(u16),
    /// The downloaded bytes do not hash to the announced checksum.
    ChecksumMismatch,
    /// The running executable could not be moved aside.
    BackupFailed,
    /// The new executable could not be moved into place.
    ApplyFailed,
}

/// Whether an HTTP status reports success.
pub open spec fn is_success(status: u16) -> bool {
    200 <= status < 300
}

/// Whether an HTTP status reports success.
pub fn status_is_success(status: u16) -> (res: bool)
    ensures
        res == is_success(status),
{
    200 <= status && status < 300
}

/// The update that a version report offers to a launcher of version
/// `current`: the reported version with its checksum, where the version
/// differs and a checksum is given.
pub open spec fn offered_update(current: Seq<char>, report: VersionResponse) -> Option<
    (Seq<char>, Seq<char>),
> {
    if report.version@ != current && report.checksum is Some {
        Some((report.version@, report.checksum->0@))
    } else {
        None
    }
}

/// What a version check comes to.
pub open spec fn update_decision(current: Seq<char>, reply: VersionReply) -> Result<
    Option<(Seq<char>, Seq<char>)>,
    UpdateError,
> {
    match reply {
        VersionReply::Unreachable => Err(UpdateError::ConnectFailed),
        VersionReply::Answered { status, body } => if !is_success(status) {
            Ok(None)
        } else if body is None {
            Err(UpdateError::ParseFailed)
        } else if body->0.version@ == current {
            Ok(None)
        } else if body->0.checksum is None {
            Err(UpdateError::MissingChecksum)
        } else {
            Ok(offered_update(current, body->0))
        },
    }
}

/// The update that a version check yields: the one that is offered, and
/// none where the check ends in an error.
pub open spec fn descriptor_of(current: Seq<char>, reply: VersionReply) -> Option<
    (Seq<char>, Seq<char>),
> {
    match update_decision(current, reply) {
        Ok(offer) => offer,
        Err(_) => None,
    }
}

/// The version and checksum of an optional update.
pub open spec fn update_view(info: Option<UpdateInfo>) -> Option<(Seq<char>, Seq<char>)> {
    match info {
        Some(u) => Some((u.version@, u.checksum@)),
        None => None,
    }
}

/// The result of a version check, with the update taken by its view.
pub open spec fn decision_view(res: Result<Option<UpdateInfo>, UpdateError>) -> Result<
    Option<(Seq<char>, Seq<char>)>,
    UpdateError,
> {
    match res {
        Ok(info) => Ok(update_view(info)),
        Err(e) => Err(e),
    }
}

/// What the judgement of a downloaded update comes to.
pub open spec fn verified_download(status: u16, bytes: Seq<u8>, expected: Seq<char>) -> Result<
    (),
    UpdateError,
> {
    if !is_success(status) {
        Err(UpdateError::DownloadFailed(status))
    } else if checksum_text(bytes) == expected {
        Ok(())
    } else {
        Err(UpdateError::ChecksumMismatch)
    }
}

/// The self-updater of one installation.
pub struct Updater {
    config: Config,
}

impl Updater {
    /// The configuration that the updater goes by.
    pub closed spec fn config(&self) -> Config {
        self.config
    }

    /// An updater for the installation that `config` describes.
    pub fn new(config: Config) -> (res: Updater)
        ensures
            res.config() == config,
    {
        Updater { config }
    }

    /// The address at which the server reports the launcher it offers.
    pub fn version_url(&self) -> (res: String)
        ensures
            res@ == self.config().server_url@ + "/sync/launcher-version"@,
    {
        concat2(self.config.server_url.as_str(), "/sync/launcher-version")
    }

    /// The address from which the offered launcher is downloaded.
    pub fn binary_url(&self) -> (res: String)
        ensures
            res@ == self.config().server_url@ + "/sync/launcher-binary"@,
    {
        concat2(self.config.server_url.as_str(), "/sync/launcher-binary")
    }

    /// Where a downloaded launcher waits to be applied.
    pub fn staging_path(&self) -> (res: LocalPath)
        ensures
            res@ == self.config().install_dir@.push(UPDATE_FILE_NAME@),
    {
        self.config.install_dir.join(UPDATE_FILE_NAME)
    }

    /// The update that the server's answer to a version request offers to
    /// this launcher, if it offers one: a descriptor comes back only where
    /// the server reports another version together with a checksum.
    pub fn check_for_update(&self, reply: &VersionReply) -> (res: Option<UpdateInfo>)
        ensures
            update_view(res) == descriptor_of(LAUNCHER_VERSION@, *reply),
    {
        match Self::evaluate_version(LAUNCHER_VERSION, reply) {
            Ok(offer) => offer,
            Err(_) => None,
        }
    }

    /// What a version check comes to for a launcher of version `current`:
    /// the update to apply, if any, or the reason for which the stage fails. A
    /// server that answers with an error status is passed over; one that
    /// offers another version without a checksum is refused.
    pub fn evaluate_version(current: &str, reply: &VersionReply) -> (res: Result<
        Option<UpdateInfo>,
        UpdateError,
    >)
        ensures
            decision_view(res) == update_decision(current@, *reply),
            res matches Ok(Some(info)) ==> reply matches VersionReply::Answered {
                body: Some(report),
                ..
            } && report.checksum == Some(info.checksum),
    {
        match reply {
            VersionReply::Unreachable => Err(UpdateError::ConnectFailed),
            VersionReply::Answered { status, body } => {
                if !status_is_success(*status) {
                    return Ok(None);
                }
                match body {
                    None => Err(UpdateError::ParseFailed),
                    Some(report) => {
                        if str_eq(report.version.as_str(), current) {
                            return Ok(None);
                        }
                        match &report.checksum {
                            None => Err(UpdateError::MissingChecksum),
                            Some(checksum) => Ok(
                                Some(
                                    UpdateInfo {
                                        version: report.version.clone(),
                                        checksum: checksum.clone(),
                                    },
                                ),
                            ),
                        }
                    },
                }
            },
        }
    }

    /// Whether the bytes of a file hash to the expected checksum.
    pub fn verify_checksum(bytes: &[u8], expected: &str) -> (res: bool)
        ensures
            res == (checksum_text(bytes@) == expected@),
    {
        checksum_matches(bytes, expected)
    }

    /// Judges the answer to the request for the launcher's binary: an error
    /// status means that nothing was downloaded.
    pub fn download_update(status: u16) -> (res: Result<(), UpdateError>)
        ensures
            res == if is_success(status) {
                Ok::<(), UpdateError>(())
            } else {
                Err::<(), UpdateError>(UpdateError::DownloadFailed(status))
            },
    {
        if status_is_success(status) {
            Ok(())
        } else {
            Err(UpdateError::DownloadFailed(status))
        }
    }

    /// Judges a downloaded update: it is accepted exactly when the server
    /// answered with success and the bytes hash to the expected checksum. On
    /// an error the downloaded file is to be deleted.
    pub fn download_and_verify(status: u16, bytes: &[u8], expected_checksum: &str) -> (res: Result<
        (),
        UpdateError,
    >)
        ensures
            res == verified_download(status, bytes@, expected_checksum@),
    {
        match Self::download_update(status) {
            Err(e) => Err(e),
            Ok(()) => {
                if Self::verify_checksum(bytes, expected_checksum) {
                    Ok(())
                } else {
                    Err(UpdateError::ChecksumMismatch)
                }
            },
        }
    }
}

/// Refusal: a version report without a checksum never yields an update,
/// whatever version it names; and where it names another version than the
/// launcher's, the check ends in an error, so that the stage fails instead of
/// passing the update over in silence.
pub proof fn lemma_missing_checksum_refused(
    current: Seq<char>,
    status: u16,
    report: VersionResponse,
)
    requires
        report.checksum is None,
    ensures
        offered_update(current, report) is None,
        descriptor_of(current, VersionReply::Answered { status, body: Some(report) }) is None,
        is_success(status) && report.version@ != current ==> update_decision(
            current,
            VersionReply::Answered { status, body: Some(report) },
        ) == Err::<Option<(Seq<char>, Seq<char>)>, UpdateError>(UpdateError::MissingChecksum),
{
}

/// Tampering: bytes that do not hash to the announced checksum are never
/// accepted, whatever the server's status.
pub proof fn lemma_tampered_download_rejected(status: u16, bytes: Seq<u8>, expected: Seq<char>)
    requires
        checksum_text(bytes) != expected,
    ensures
        verified_download(status, bytes, expected) is Err,
{
}

/// Whatever the server answers, an update that is offered carries the
/// checksum that the server gave for it.
pub proof fn lemma_update_always_has_checksum(current: Seq<char>, reply: VersionReply)
    ensures
        update_decision(current, reply) matches Ok(Some(offer)) ==> reply matches VersionReply::Answered {
            status,
            body: Some(report),
        } && is_success(status) && report.version@ != current && report.checksum is Some
            && offer == (report.version@, report.checksum->0@),
{
}

/// The index of the last dot among the first `upto` characters of a name.
pub open spec fn last_dot(name: Seq<char>, upto: int) -> Option<int>
    decreases upto,
{
    if upto <= 0 {
        None
    } else if name[upto - 1] == '.' {
        Some(upto - 1)
    } else {
        last_dot(name, upto - 1)
    }
}

/// A file name without its extension: what stands before its last dot; the
/// whole name where it has no dot, or none but a leading one.
pub open spec fn stem_of(name: Seq<char>) -> Seq<char> {
    match last_dot(name, name.len() as int) {
        Some(i) => if i == 0 {
            name
        } else {
            name.take(i)
        },
        None => name,
    }
}

/// The name under which a file is kept as a backup: its name with the
/// backup extension in place of its own.
pub open spec fn backup_name_of(name: Seq<char>) -> Seq<char> {
    stem_of(name) + "."@ + BACKUP_EXTENSION@
}

impl Updater {
    /// The index of the last dot of a name.
    pub fn find_last_dot(name: &str) -> (res: Option<usize>)
        ensures
            match res {
                Some(i) => i < name@.len() && name@[i as int] == '.' && last_dot(
                    name@,
                    name@.len() as int,
                ) == Some(i as int),
                None => last_dot(name@, name@.len() as int) is None,
            },
    {
        let n = name.unicode_len();
        let mut i: usize = n;
        while i > 0
            invariant
                n == name@.len(),
                i <= n,
                last_dot(name@, n as int) == last_dot(name@, i as int),
            decreases i,
        {
            if name.get_char(i - 1) == '.' {
                return Some(i - 1);
            }
            i = i - 1;
        }
        None
    }

    /// The name under which the running executable is kept as a backup
    /// while an update is applied, given the executable's file name.
    pub fn backup_name(name: &str) -> (res: String)
        ensures
            res@ == backup_name_of(name@),
    {
        let stem = match Self::find_last_dot(name) {
            Some(i) => if i == 0 {
                name
            } else {
                assert(name@.take(i as int) =~= name@.subrange(0, i as int));
                name.substring_char(0, i)
            },
            None => name,
        };
        concat3(stem, ".", BACKUP_EXTENSION)
    }
}

/// One of the three files that an update moves.
#[derive(Debug, Clone, Copy, PartialEq, Eq, Structural)]
pub enum Slot {
    /// The path of the running executable.
    Target,
    /// The target's path with the backup extension.
    Backup,
    /// The downloaded, verified executable.
    Staged,
}

/// What the caller has to do next while an update is applied. It answers
/// each step but the last two with a `bool`.
#[derive(Debug, Clone, Copy, PartialEq, Eq, Structural)]
pub enum ApplyStep {
    /// Report whether the file exists.
    Probe(Slot),
    /// Rename one file to the other and report whether that succeeded.
    Rename { from: Slot, to: Slot },
    /// Delete the file and report whether that succeeded.
    Remove(Slot),
    /// The new executable is in place.
    Applied,
    /// The update was given up.
    Failed(UpdateError),
}

/// How far an update has been applied: the answer that is awaited.
#[derive(Debug, Clone, Copy, PartialEq, Eq, Structural)]
pub enum ApplyPhase {
    Start,
    TargetProbed,
    BackedUp,
    Swapped,
    CleanupProbed,
    CleanedUp,
    RollbackProbed,
    RolledBack,
    Finished(ApplyStep),
}

/// The protocol by which an update is applied: from the phase and the answer
/// to the step last handed out, the next phase and the next step. In `Start`
/// the answer is not looked at.
pub open spec fn apply_protocol(phase: ApplyPhase, answer: bool) -> (ApplyPhase, ApplyStep) {
    match phase {
        ApplyPhase::Start => (ApplyPhase::TargetProbed, ApplyStep::Probe(Slot::Target)),
        ApplyPhase::TargetProbed => if answer {
            (ApplyPhase::BackedUp, ApplyStep::Rename { from: Slot::Target, to: Slot::Backup })
        } else {
            (ApplyPhase::Swapped, ApplyStep::Rename { from: Slot::Staged, to: Slot::Target })
        },
        ApplyPhase::BackedUp => if answer {
            (ApplyPhase::Swapped, ApplyStep::Rename { from: Slot::Staged, to: Slot::Target })
        } else {
            (
                ApplyPhase::Finished(ApplyStep::Failed(UpdateError::BackupFailed)),
                ApplyStep::Failed(UpdateError::BackupFailed),
            )
        },
        ApplyPhase::Swapped => if answer {
            (ApplyPhase::CleanupProbed, ApplyStep::Probe(Slot::Backup))
        } else {
            (ApplyPhase::RollbackProbed, ApplyStep::Probe(Slot::Backup))
        },
        ApplyPhase::CleanupProbed => if answer {
            (ApplyPhase::CleanedUp, ApplyStep::Remove(Slot::Backup))
        } else {
            (ApplyPhase::Finished(ApplyStep::Applied), ApplyStep::Applied)
        },
        ApplyPhase::CleanedUp => (ApplyPhase::Finished(ApplyStep::Applied), ApplyStep::Applied),
        ApplyPhase::RollbackProbed => if answer {
            (ApplyPhase::RolledBack, ApplyStep::Rename { from: Slot::Backup, to: Slot::Target })
        } else {
            (
                ApplyPhase::Finished(ApplyStep::Failed(UpdateError::ApplyFailed)),
                ApplyStep::Failed(UpdateError::ApplyFailed),
            )
        },
        ApplyPhase::RolledBack => (
            ApplyPhase::Finished(ApplyStep::Failed(UpdateError::ApplyFailed)),
            ApplyStep::Failed(UpdateError::ApplyFailed),
        ),
        ApplyPhase::Finished(last) => (ApplyPhase::Finished(last), last),
    }
}

impl Updater {
    /// Applies an update step by step. Begin with `ApplyPhase::Start`; carry
    /// out the step that comes back and call again with the phase that came
    /// back and the answer to that step, until the step is `Applied` or
    /// `Failed`.
    pub fn apply_update(phase: ApplyPhase, answer: bool) -> (res: (ApplyPhase, ApplyStep))
        ensures
            res == apply_protocol(phase, answer),
    {
        match phase {
            ApplyPhase::Start => (ApplyPhase::TargetProbed, ApplyStep::Probe(Slot::Target)),
            ApplyPhase::TargetProbed => if answer {
                (ApplyPhase::BackedUp, ApplyStep::Rename { from: Slot::Target, to: Slot::Backup })
            } else {
                (ApplyPhase::Swapped, ApplyStep::Rename { from: Slot::Staged, to: Slot::Target })
            },
            ApplyPhase::BackedUp => if answer {
                (ApplyPhase::Swapped, ApplyStep::Rename { from: Slot::Staged, to: Slot::Target })
            } else {
                Self::finish(ApplyStep::Failed(UpdateError::BackupFailed))
            },
            ApplyPhase::Swapped => if answer {
                (ApplyPhase::CleanupProbed, ApplyStep::Probe(Slot::Backup))
            } else {
                (ApplyPhase::RollbackProbed, ApplyStep::Probe(Slot::Backup))
            },
            ApplyPhase::CleanupProbed => if answer {
                (ApplyPhase::CleanedUp, ApplyStep::Remove(Slot::Backup))
            } else {
                Self::finish(ApplyStep::Applied)
            },
            ApplyPhase::CleanedUp => Self::finish(ApplyStep::Applied),
            ApplyPhase::RollbackProbed => if answer {
                (ApplyPhase::RolledBack, ApplyStep::Rename { from: Slot::Backup, to: Slot::Target })
            } else {
                Self::finish(ApplyStep::Failed(UpdateError::ApplyFailed))
            },
            ApplyPhase::RolledBack => Self::finish(ApplyStep::Failed(UpdateError::ApplyFailed)),
            ApplyPhase::Finished(last) => (ApplyPhase::Finished(last), last),
        }
    }

    fn finish(last: ApplyStep) -> (res: (ApplyPhase, ApplyStep))
        ensures
            res == (ApplyPhase::Finished(last), last),
    {
        (ApplyPhase::Finished(last), last)
    }
}

/// What the three files hold: for each, the identity of its content, or
/// `None` where the file is missing.
pub struct Files {
    pub target: Option<int>,
    pub backup: Option<int>,
    pub staged: Option<int>,
}

/// Which operations the file system refuses during one run.
pub struct Faults {
    pub backup_fails: bool,
    pub swap_fails: bool,
    pub restore_fails: bool,
    pub remove_fails: bool,
}

impl Files {
    /// What a file holds.
    pub open spec fn get(self, slot: Slot) -> Option<int> {
        match slot {
            Slot::Target => self.target,
            Slot::Backup => self.backup,
            Slot::Staged => self.staged,
        }
    }

    /// The files with one of them holding something else.
    pub open spec fn set(self, slot: Slot, content: Option<int>) -> Files {
        match slot {
            Slot::Target => Files { target: content, ..self },
            Slot::Backup => Files { backup: content, ..self },
            Slot::Staged => Files { staged: content, ..self },
        }
    }
}

/// Whether the file system refuses a rename.
pub open spec fn rename_refused(faults: Faults, from: Slot, to: Slot) -> bool {
    if from == Slot::Target && to == Slot::Backup {
        faults.backup_fails
    } else if from == Slot::Staged && to == Slot::Target {
        faults.swap_fails
    } else if from == Slot::Backup && to == Slot::Target {
        faults.restore_fails
    } else {
        false
    }
}

/// What carrying out a step does to the files, and the answer it gives. A
/// rename moves the content and replaces what the destination held; it fails,
/// changing nothing, where the source is missing or the file system refuses.
pub open spec fn carry_out(files: Files, step: ApplyStep, faults: Faults) -> (Files, bool) {
    match step {
        ApplyStep::Probe(slot) => (files, files.get(slot) is Some),
        ApplyStep::Rename { from, to } => if from != to && files.get(from) is Some
            && !rename_refused(faults, from, to) {
            (files.set(to, files.get(from)).set(from, None), true)
        } else {
            (files, false)
        },
        ApplyStep::Remove(slot) => if files.get(slot) is Some && !faults.remove_fails {
            (files.set(slot, None), true)
        } else {
            (files, false)
        },
        ApplyStep::Applied => (files, true),
        ApplyStep::Failed(_) => (files, false),
    }
}

/// The files and the last step after the protocol has been followed from a
/// phase for at most `rounds` steps.
pub open spec fn follow(
    files: Files,
    phase: ApplyPhase,
    answer: bool,
    faults: Faults,
    rounds: nat,
) -> (
    Files,
    ApplyStep,
)
    decreases rounds,
{
    let (next, step) = apply_protocol(phase, answer);
    if rounds == 0 || step is Applied || step is Failed {
        (files, step)
    } else {
        let (after, reply) = carry_out(files, step, faults);
        follow(after, next, reply, faults, (rounds - 1) as nat)
    }
}

/// The files and the outcome of a whole update.
pub open spec fn applied(files: Files, faults: Faults) -> (Files, ApplyStep) {
    follow(files, ApplyPhase::Start, false, faults, 8)
}

/// An update always comes to an end within eight steps, applied or given up.
pub proof fn lemma_apply_terminates(files: Files, faults: Faults)
    ensures
        applied(files, faults).1 is Applied || applied(files, faults).1 is Failed,
{
    reveal_with_fuel(follow, 9);
}

/// Rollback: where the new executable cannot be moved into place and the file
/// system lets the backup be moved back, the update is given up and the
/// target holds what it held before.
pub proof fn lemma_rollback_keeps_target(files: Files, faults: Faults)
    requires
        files.target is Some,
        faults.swap_fails,
        !faults.restore_fails,
    ensures
        applied(files, faults).1 is Failed,
        applied(files, faults).0.target == files.target,
        applied(files, faults).0.staged == files.staged,
{
    reveal_with_fuel(follow, 9);
}

/// Where the file system refuses nothing and a new executable is staged, the
/// update is applied: the target holds the new executable and no backup is
/// left behind.
pub proof fn lemma_apply_installs_staged(files: Files, faults: Faults)
    requires
        files.staged is Some,
        !faults.backup_fails,
        !faults.swap_fails,
        !faults.remove_fails,
    ensures
        applied(files, faults).1 is Applied,
        applied(files, faults).0.target == files.staged,
        applied(files, faults).0.backup is None,
        applied(files, faults).0.staged is None,
{
    reveal_with_fuel(follow, 9);
}

/// Where a backup can always be moved back, the target is never lost: after
/// the update it holds what it held before or what was staged, and it reports
/// `Applied` exactly when it holds what was staged.
pub proof fn lemma_target_old_or_new(files: Files, faults: Faults)
    requires
        files.target is Some,
        files.staged is Some,
        !faults.restore_fails,
    ensures
        applied(files, faults).1 is Applied ==> applied(files, faults).0.target == files.staged,
        applied(files, faults).1 is Failed ==> applied(files, faults).0.target == files.target,
{
    reveal_with_fuel(follow, 9);
}

} // verus!
