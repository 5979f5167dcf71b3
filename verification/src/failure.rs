//! The kinds of failure, and the kind of each error that a component gives.

use vstd::prelude::*;

use crate::dependencies::installers::InstallError;
use crate::orchestrator::BuildError;
use crate::sync::SyncError;
use crate::updater::UpdateError;

verus! {

/// What went wrong, as far as it matters for what can be done about it.
#[derive(Debug, Clone, Copy, PartialEq, Eq, Structural)]
pub enum FailureKind {
    /// A local toolchain is missing or does not work.
    Environment,
    /// The server could not be reached, did not answer in time, or answered
    /// with an error.
    Network,
    /// What was downloaded is not what was announced, or cannot be verified.
    Integrity,
    /// The local file system refused an operation.
    Filesystem,
}

/// The kind of an error of the self-updater.
pub open spec fn update_failure(error: UpdateError) -> FailureKind {
    match error {
        UpdateError::ConnectFailed => FailureKind::Network,
        UpdateError::ParseFailed => FailureKind::Network,
        UpdateError::MissingChecksum => FailureKind::Integrity,
        UpdateError::DownloadFailed(_) => FailureKind::Network,
        UpdateError::ChecksumMismatch => FailureKind::Integrity,
        UpdateError::BackupFailed => FailureKind::Filesystem,
        UpdateError::ApplyFailed => FailureKind::Filesystem,
    }
}

/// The kind of an error of the sync engine.
pub open spec fn sync_failure(error: SyncError) -> FailureKind {
    match error {
        SyncError::ConnectFailed => FailureKind::Network,
        SyncError::ServerError(_) => FailureKind::Network,
        SyncError::ParseFailed => FailureKind::Network,
        SyncError::DownloadFailed { .. } => FailureKind::Network,
        SyncError::ChecksumMismatch { .. } => FailureKind::Integrity,
        SyncError::Filesystem => FailureKind::Filesystem,
        SyncError::UnexpectedAnswer => FailureKind::Filesystem,
    }
}

/// The kind of an error of the build.
pub open spec fn build_failure(error: BuildError) -> FailureKind {
    match error {
        BuildError::ScriptNotFound => FailureKind::Filesystem,
        BuildError::BuildFailed(_) => FailureKind::Environment,
        BuildError::GameNotFound => FailureKind::Filesystem,
        BuildError::ValidationTestNotFound => FailureKind::Filesystem,
    }
}

/// The kind of an error of an installation.
pub open spec fn install_failure(error: InstallError) -> FailureKind {
    match error {
        InstallError::VsBuildToolsFailed(_) => FailureKind::Environment,
        InstallError::RustFailed => FailureKind::Environment,
        InstallError::VulkanSdkFailed => FailureKind::Environment,
        InstallError::CloneFailed => FailureKind::Network,
        InstallError::ConfigureFailed => FailureKind::Environment,
        InstallError::DownloadFailed => FailureKind::Network,
        InstallError::SpawnFailed => FailureKind::Environment,
        InstallError::Filesystem => FailureKind::Filesystem,
        InstallError::UnexpectedAnswer => FailureKind::Filesystem,
    }
}

impl UpdateError {
    /// The kind of the error.
    pub fn kind(self) -> (res: FailureKind)
        ensures
            res == update_failure(self),
    {
        match self {
            UpdateError::ConnectFailed => FailureKind::Network,
            UpdateError::ParseFailed => FailureKind::Network,
            UpdateError::MissingChecksum => FailureKind::Integrity,
            UpdateError::DownloadFailed(_) => FailureKind::Network,
            UpdateError::ChecksumMismatch => FailureKind::Integrity,
            UpdateError::BackupFailed => FailureKind::Filesystem,
            UpdateError::ApplyFailed => FailureKind::Filesystem,
        }
    }
}

impl SyncError {
    /// The kind of the error.
    pub fn kind(self) -> (res: FailureKind)
        ensures
            res == sync_failure(self),
    {
        match self {
            SyncError::ConnectFailed => FailureKind::Network,
            SyncError::ServerError(_) => FailureKind::Network,
            SyncError::ParseFailed => FailureKind::Network,
            SyncError::DownloadFailed { .. } => FailureKind::Network,
            SyncError::ChecksumMismatch { .. } => FailureKind::Integrity,
            SyncError::Filesystem => FailureKind::Filesystem,
            SyncError::UnexpectedAnswer => FailureKind::Filesystem,
        }
    }
}

impl BuildError {
    /// The kind of the error.
    pub fn kind(self) -> (res: FailureKind)
        ensures
            res == build_failure(self),
    {
        match self {
            BuildError::ScriptNotFound => FailureKind::Filesystem,
            BuildError::BuildFailed(_) => FailureKind::Environment,
            BuildError::GameNotFound => FailureKind::Filesystem,
            BuildError::ValidationTestNotFound => FailureKind::Filesystem,
        }
    }
}

impl InstallError {
    /// The kind of the error.
    pub fn kind(self) -> (res: FailureKind)
        ensures
            res == install_failure(self),
    {
        match self {
            InstallError::VsBuildToolsFailed(_) => FailureKind::Environment,
            InstallError::RustFailed => FailureKind::Environment,
            InstallError::VulkanSdkFailed => FailureKind::Environment,
            InstallError::CloneFailed => FailureKind::Network,
            InstallError::ConfigureFailed => FailureKind::Environment,
            InstallError::DownloadFailed => FailureKind::Network,
            InstallError::SpawnFailed => FailureKind::Environment,
            InstallError::Filesystem => FailureKind::Filesystem,
            InstallError::UnexpectedAnswer => FailureKind::Filesystem,
        }
    }
}

/// Integrity is never traded: a download whose bytes do not hash to the
/// expected checksum is rejected with an error of that kind, whatever else
/// is true of it.
pub proof fn lemma_mismatch_is_an_integrity_failure(bytes: Seq<u8>, expected: Seq<char>, status: u16)
    requires
        crate::updater::is_success(status),
        crate::checksum::checksum_text(bytes) != expected,
    ensures
        crate::updater::verified_download(status, bytes, expected) matches Err(e)
            && update_failure(e) == FailureKind::Integrity,
{
}

/// A failing manifest request is a failure of the network, and the one
/// failure that does not fail its stage.
pub proof fn lemma_only_network_failures_degrade(
    reply: crate::sync::Reply<crate::sync::FileManifest>,
)
    ensures
        crate::sync::reply_outcome(reply) matches Err(e) ==> sync_failure(e)
            == FailureKind::Network && crate::stages::sync_stage_protocol(
            crate::stages::SyncEvent::Manifest(reply),
        ) is FullArchive,
{
}

} // verus!
