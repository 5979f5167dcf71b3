use launcher::dependencies::audit::InstallTask;
use launcher::config::Config;
use launcher::dependencies::{DependencyManager, DependencyStatus};
use launcher::paths::LocalPath;
use launcher::stages::{
    audit_verdict, run_build, run_dependency_audit, run_init, run_self_update, run_sync,
    AuditPlan, BuildTask, SyncDirective, SyncEvent, UpdateDirective, UpdateEvent,
};
use launcher::sync::{FileManifest, Reply, SyncError};
use launcher::updater::{ApplyStep, Slot, UpdateError, UpdateInfo, VersionReply, VersionResponse};

const HELLO: &str = "b94d27b9934d3e08a52e52d7da7dabfac484efe37a5380ee9088f7ace2efcde9";

fn config(skip_update: bool) -> Config {
    let mut config = Config::with_defaults(Some("/data"));
    config.skip_update = skip_update;
    config
}

fn record(name: &str, installed: bool) -> DependencyStatus {
    DependencyStatus {
        name: name.to_string(),
        installed,
        version: if installed { Some("1".to_string()) } else { None },
        path: None,
    }
}

fn offer(version: &str, checksum: Option<&str>) -> UpdateEvent {
    UpdateEvent::Version(VersionReply::Answered {
        status: 200,
        body: Some(VersionResponse {
            version: version.to_string(),
            checksum: checksum.map(|c| c.to_string()),
        }),
    })
}

fn downloaded(status: u16, bytes: &[u8]) -> UpdateEvent {
    UpdateEvent::Downloaded {
        info: UpdateInfo { version: "2.0.0".to_string(), checksum: HELLO.to_string() },
        status,
        bytes: bytes.to_vec(),
    }
}

#[test]
fn init_creates_three_directories() {
    let dirs = run_init(&config(false));
    let install = LocalPath::new("/data").join("AAAEngine");
    assert_eq!(dirs.len(), 3);
    assert!(dirs[0].same_as(&install));
    assert!(dirs[1].same_as(&install.join("deps")));
    assert!(dirs[2].same_as(&install.join("logs")));
}

#[test]
fn self_update_is_skipped_when_switched_off() {
    assert!(matches!(
        run_self_update(&config(true), false, &UpdateEvent::Begin),
        UpdateDirective::Proceed
    ));
    assert!(matches!(
        run_self_update(&config(false), false, &UpdateEvent::Begin),
        UpdateDirective::CheckVersion
    ));
}

#[test]
fn self_update_downloads_what_is_offered() {
    match run_self_update(&config(false), false, &offer("2.0.0", Some(HELLO))) {
        UpdateDirective::Download(info) => {
            assert_eq!(info.version, "2.0.0");
            assert_eq!(info.checksum, HELLO);
        }
        other => panic!("{:?}", other),
    }
    assert!(matches!(
        run_self_update(&config(false), false, &offer("1.0.0", Some(HELLO))),
        UpdateDirective::Proceed
    ));
    assert!(matches!(
        run_self_update(&config(false), false, &offer("2.0.0", None)),
        UpdateDirective::Fail(UpdateError::MissingChecksum)
    ));
    assert!(matches!(
        run_self_update(&config(false), false, &UpdateEvent::Version(VersionReply::Unreachable)),
        UpdateDirective::Fail(UpdateError::ConnectFailed)
    ));
}

#[test]
fn self_update_applies_only_verified_bytes() {
    assert!(matches!(
        run_self_update(&config(false), false, &downloaded(200, b"hello world")),
        UpdateDirective::Apply
    ));
    assert!(matches!(
        run_self_update(&config(false), false, &downloaded(200, b"hello w0rld")),
        UpdateDirective::Fail(UpdateError::ChecksumMismatch)
    ));
    assert!(matches!(
        run_self_update(&config(false), false, &downloaded(502, b"hello world")),
        UpdateDirective::Fail(UpdateError::DownloadFailed(502))
    ));
}

#[test]
fn dry_run_only_reports_an_update() {
    match run_self_update(&config(false), true, &offer("2.0.0", Some(HELLO))) {
        UpdateDirective::Available(info) => {
            assert_eq!(info.version, "2.0.0");
            assert_eq!(info.checksum, HELLO);
        }
        other => panic!("{:?}", other),
    }
    assert!(matches!(
        run_self_update(&config(false), true, &UpdateEvent::Begin),
        UpdateDirective::CheckVersion
    ));
    assert!(matches!(
        run_self_update(&config(false), true, &offer("1.0.0", None)),
        UpdateDirective::Proceed
    ));
    assert!(matches!(
        run_self_update(&config(false), true, &offer("2.0.0", None)),
        UpdateDirective::Fail(UpdateError::MissingChecksum)
    ));
    assert!(matches!(
        run_self_update(&config(false), true, &downloaded(200, b"hello world")),
        UpdateDirective::Fail(UpdateError::ApplyFailed)
    ));
}

#[test]
fn self_update_restarts_after_applying() {
    assert!(matches!(
        run_self_update(&config(false), false, &UpdateEvent::Applied(ApplyStep::Applied)),
        UpdateDirective::Restart
    ));
    assert!(matches!(
        run_self_update(
            &config(false),
            false,
            &UpdateEvent::Applied(ApplyStep::Failed(UpdateError::BackupFailed))
        ),
        UpdateDirective::Fail(UpdateError::BackupFailed)
    ));
    assert!(matches!(
        run_self_update(&config(false), false, &UpdateEvent::Applied(ApplyStep::Probe(Slot::Target))),
        UpdateDirective::Fail(UpdateError::ApplyFailed)
    ));
}

#[test]
fn audit_with_everything_installed_is_satisfied() {
    let manager = DependencyManager::new(config(false));
    let deps = vec![record("Rust", true), record("CMake", true)];
    assert!(matches!(run_dependency_audit(&manager, &deps, false), AuditPlan::Satisfied));
    assert!(matches!(run_dependency_audit(&manager, &deps, true), AuditPlan::Satisfied));
    assert!(matches!(run_dependency_audit(&manager, &Vec::new(), false), AuditPlan::Satisfied));
    assert!(audit_verdict(&deps).is_ok());
}

#[test]
fn audit_installs_what_is_missing_in_order() {
    let manager = DependencyManager::new(config(false));
    let deps = vec![
        record("Visual Studio Build Tools", false),
        record("Rust", true),
        record("Vulkan SDK", false),
        record("Tracy Profiler", false),
        record("O3DE SDK", false),
        record("CMake", false),
        record("Ninja", false),
        record("Rust", false),
    ];
    match run_dependency_audit(&manager, &deps, false) {
        AuditPlan::Install(tasks) => {
            assert_eq!(tasks.len(), 7);
            assert!(matches!(tasks[0], InstallTask::VsBuildTools));
            assert!(matches!(tasks[1], InstallTask::VulkanSdk));
            assert!(matches!(tasks[2], InstallTask::Tracy));
            assert!(matches!(tasks[3], InstallTask::O3de));
            assert!(matches!(tasks[4], InstallTask::CMakeAdvice));
            assert!(matches!(&tasks[5], InstallTask::Unknown(name) if name == "Ninja"));
            assert!(matches!(tasks[6], InstallTask::Rust));
        }
        other => panic!("{:?}", other),
    }
    match run_dependency_audit(&manager, &deps, true) {
        AuditPlan::Report(names) => assert_eq!(
            names,
            vec![
                "Visual Studio Build Tools",
                "Vulkan SDK",
                "Tracy Profiler",
                "O3DE SDK",
                "CMake",
                "Ninja",
                "Rust",
            ]
        ),
        other => panic!("{:?}", other),
    }
}

#[test]
fn audit_fails_with_exactly_the_missing_names() {
    let recheck = vec![record("Rust", true), record("Vulkan SDK", false), record("CMake", false)];
    let error = audit_verdict(&recheck).err().unwrap();
    assert_eq!(error.still_missing, vec!["Vulkan SDK", "CMake"]);
}

#[test]
fn sync_stage_chooses_its_way() {
    assert!(matches!(run_sync(SyncEvent::Begin), SyncDirective::CheckServer));
    let up = SyncEvent::Server(Reply::Answered { status: 200, body: Some("1".to_string()) });
    assert!(matches!(run_sync(up), SyncDirective::ProbeTree));
    let down = SyncEvent::Server(Reply::Answered { status: 500, body: None });
    assert!(matches!(run_sync(down), SyncDirective::Fail(SyncError::ServerError(500))));
    assert!(matches!(
        run_sync(SyncEvent::Server(Reply::Unreachable)),
        SyncDirective::Fail(SyncError::ConnectFailed)
    ));
    assert!(matches!(
        run_sync(SyncEvent::Tree { present: false, entries: 0 }),
        SyncDirective::FullArchive
    ));
    assert!(matches!(
        run_sync(SyncEvent::Tree { present: true, entries: 0 }),
        SyncDirective::FullArchive
    ));
    assert!(matches!(
        run_sync(SyncEvent::Tree { present: true, entries: 12 }),
        SyncDirective::FetchManifest
    ));
}

#[test]
fn sync_stage_falls_back_when_the_manifest_fails() {
    let failing = [
        Reply::Answered { status: 500, body: None },
        Reply::Answered { status: 200, body: None },
        Reply::Unreachable,
    ];
    for reply in failing {
        assert!(matches!(run_sync(SyncEvent::Manifest(reply)), SyncDirective::FullArchive));
    }
    let manifest = FileManifest { version: "3".to_string(), files: Vec::new() };
    let delivered = Reply::Answered { status: 200, body: Some(manifest) };
    match run_sync(SyncEvent::Manifest(delivered)) {
        SyncDirective::Incremental(m) => assert_eq!(m.version, "3"),
        other => panic!("{:?}", other),
    }
}

#[test]
fn build_stage_saves_the_version_only_after_a_build() {
    assert_eq!(
        run_build(true),
        vec![
            BuildTask::Build,
            BuildTask::SaveBuildVersion,
            BuildTask::BuildRenderFabric,
            BuildTask::RunValidationTests,
        ]
    );
    assert_eq!(run_build(false), vec![BuildTask::BuildRenderFabric, BuildTask::RunValidationTests]);
}
