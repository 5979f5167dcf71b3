use launcher::dependencies::installers::InstallError;
use launcher::failure::FailureKind;
use launcher::orchestrator::BuildError;
use launcher::sync::SyncError;
use launcher::updater::UpdateError;

#[test]
fn update_errors_by_kind() {
    assert_eq!(UpdateError::ConnectFailed.kind(), FailureKind::Network);
    assert_eq!(UpdateError::ParseFailed.kind(), FailureKind::Network);
    assert_eq!(UpdateError::DownloadFailed(503).kind(), FailureKind::Network);
    assert_eq!(UpdateError::MissingChecksum.kind(), FailureKind::Integrity);
    assert_eq!(UpdateError::ChecksumMismatch.kind(), FailureKind::Integrity);
    assert_eq!(UpdateError::BackupFailed.kind(), FailureKind::Filesystem);
    assert_eq!(UpdateError::ApplyFailed.kind(), FailureKind::Filesystem);
}

#[test]
fn sync_errors_by_kind() {
    assert_eq!(SyncError::ConnectFailed.kind(), FailureKind::Network);
    assert_eq!(SyncError::ServerError(500).kind(), FailureKind::Network);
    assert_eq!(SyncError::ParseFailed.kind(), FailureKind::Network);
    assert_eq!(SyncError::DownloadFailed { entry: 2, status: 404 }.kind(), FailureKind::Network);
    assert_eq!(SyncError::ChecksumMismatch { entry: 0 }.kind(), FailureKind::Integrity);
    assert_eq!(SyncError::Filesystem.kind(), FailureKind::Filesystem);
    assert_eq!(SyncError::UnexpectedAnswer.kind(), FailureKind::Filesystem);
}

#[test]
fn build_errors_by_kind() {
    assert_eq!(BuildError::ScriptNotFound.kind(), FailureKind::Filesystem);
    assert_eq!(BuildError::GameNotFound.kind(), FailureKind::Filesystem);
    assert_eq!(BuildError::ValidationTestNotFound.kind(), FailureKind::Filesystem);
    assert_eq!(BuildError::BuildFailed(Some(1)).kind(), FailureKind::Environment);
    assert_eq!(BuildError::BuildFailed(None).kind(), FailureKind::Environment);
}

#[test]
fn install_errors_by_kind() {
    assert_eq!(InstallError::VsBuildToolsFailed(-1).kind(), FailureKind::Environment);
    assert_eq!(InstallError::RustFailed.kind(), FailureKind::Environment);
    assert_eq!(InstallError::VulkanSdkFailed.kind(), FailureKind::Environment);
    assert_eq!(InstallError::ConfigureFailed.kind(), FailureKind::Environment);
    assert_eq!(InstallError::SpawnFailed.kind(), FailureKind::Environment);
    assert_eq!(InstallError::CloneFailed.kind(), FailureKind::Network);
    assert_eq!(InstallError::DownloadFailed.kind(), FailureKind::Network);
    assert_eq!(InstallError::Filesystem.kind(), FailureKind::Filesystem);
    assert_eq!(InstallError::UnexpectedAnswer.kind(), FailureKind::Filesystem);
}
