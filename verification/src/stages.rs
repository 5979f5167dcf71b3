//! What each stage of the pipeline does, as far as it is a decision: which
//! directories to create, whether to update, what to install, which way to
//! sync, and what to build.

use vstd::prelude::*;

use crate::dependencies::audit::{install_tasks, missing_names, status_views, task_views, InstallTask};
use crate::checksum::checksum_text;
use crate::config::{Config, LAUNCHER_VERSION};
use crate::dependencies::{DependencyManager, DependencyStatus};
use crate::paths::{path_views, text_views, LocalPath};
use crate::sync::{chosen_path, reply_outcome, FileManifest, Reply, SyncError, SyncManager, SyncPath};
use crate::updater::{
    is_success, update_decision, verified_download, ApplyStep, UpdateError, UpdateInfo, Updater,
    VersionReply,
};

verus! {

/// The directories that the first stage creates, in order.
pub fn run_init(config: &Config) -> (res: Vec<LocalPath>)
    ensures
        path_views(res@) == seq![
            config.install_dir@,
            config.install_dir@.push("deps"@),
            config.install_dir@.push("logs"@),
        ],
{
    let mut directories: Vec<LocalPath> = Vec::new();
    directories.push(config.install_dir.duplicate());
    directories.push(config.deps_dir());
    directories.push(config.logs_dir());
    assert(path_views(directories@) =~= seq![
        config.install_dir@,
        config.install_dir@.push("deps"@),
        config.install_dir@.push("logs"@),
    ]);
    directories
}

/// What has happened in the self-update stage.
#[derive(Debug, Clone)]
pub enum UpdateEvent {
    /// The stage begins.
    Begin,
    /// The server's answer to the version request.
    Version(VersionReply),
    /// The server's answer to the request for the binary of `info`.
    Downloaded { info: UpdateInfo, status: u16, bytes: Vec<u8> },
    /// The last step of applying the update.
    Applied(ApplyStep),
}

/// What the self-update stage has to do next.
#[derive(Debug, Clone)]
pub enum UpdateDirective {
    /// Ask the server which launcher it offers.
    CheckVersion,
    /// Download the binary of the update.
    Download(UpdateInfo),
    /// An update is offered, but this is a dry run: report it and go on with
    /// the pipeline.
    Available(UpdateInfo),
    /// Write the verified bytes to the staging file and apply the update.
    Apply,
    /// The update is in place: end the process so that it is started anew.
    Restart,
    /// Nothing to update: go on with the pipeline.
    Proceed,
    /// Delete the staging file, if there is one, and fail the stage.
    Fail(UpdateError),
}

/// The directive that follows an event, with the update taken by its view.
pub enum DirectiveView {
    CheckVersion,
    Download(Seq<char>, Seq<char>),
    Available(Seq<char>, Seq<char>),
    Apply,
    Restart,
    Proceed,
    Fail(UpdateError),
}

impl View for UpdateDirective {
    type V = DirectiveView;

    open spec fn view(&self) -> DirectiveView {
        match self {
            UpdateDirective::CheckVersion => DirectiveView::CheckVersion,
            UpdateDirective::Download(info) => DirectiveView::Download(
                info.version@,
                info.checksum@,
            ),
            UpdateDirective::Available(info) => DirectiveView::Available(
                info.version@,
                info.checksum@,
            ),
            UpdateDirective::Apply => DirectiveView::Apply,
            UpdateDirective::Restart => DirectiveView::Restart,
            UpdateDirective::Proceed => DirectiveView::Proceed,
            UpdateDirective::Fail(e) => DirectiveView::Fail(*e),
        }
    }
}

/// The self-update stage: the check is left out where updates are switched
/// off; an offered update is downloaded, or only reported in a dry run; it
/// is applied only if its bytes hash to the checksum that the server gave;
/// the process restarts once it is applied. Every failure fails the stage.
pub open spec fn self_update_protocol(
    skip_update: bool,
    dry_run: bool,
    current: Seq<char>,
    event: UpdateEvent,
) -> DirectiveView {
    match event {
        UpdateEvent::Begin => if skip_update {
            DirectiveView::Proceed
        } else {
            DirectiveView::CheckVersion
        },
        UpdateEvent::Version(reply) => match update_decision(current, reply) {
            Ok(Some((version, checksum))) => if dry_run {
                DirectiveView::Available(version, checksum)
            } else {
                DirectiveView::Download(version, checksum)
            },
            Ok(None) => DirectiveView::Proceed,
            Err(e) => DirectiveView::Fail(e),
        },
        UpdateEvent::Downloaded { info, status, bytes } => if dry_run {
            DirectiveView::Fail(UpdateError::ApplyFailed)
        } else {
            match verified_download(status, bytes@, info.checksum@) {
                Ok(_) => DirectiveView::Apply,
                Err(e) => DirectiveView::Fail(e),
            }
        },
        UpdateEvent::Applied(step) => match step {
            ApplyStep::Applied => DirectiveView::Restart,
            ApplyStep::Failed(e) => DirectiveView::Fail(e),
            _ => DirectiveView::Fail(UpdateError::ApplyFailed),
        },
    }
}

/// What the self-update stage has to do next, given what has happened.
pub fn run_self_update(config: &Config, dry_run: bool, event: &UpdateEvent) -> (res:
    UpdateDirective)
    ensures
        res@ == self_update_protocol(config.skip_update, dry_run, LAUNCHER_VERSION@, *event),
{
    match event {
        UpdateEvent::Begin => if config.skip_update {
            UpdateDirective::Proceed
        } else {
            UpdateDirective::CheckVersion
        },
        UpdateEvent::Version(reply) => match Updater::evaluate_version(LAUNCHER_VERSION, reply) {
            Ok(Some(info)) => if dry_run {
                UpdateDirective::Available(info)
            } else {
                UpdateDirective::Download(info)
            },
            Ok(None) => UpdateDirective::Proceed,
            Err(e) => UpdateDirective::Fail(e),
        },
        UpdateEvent::Downloaded { info, status, bytes } => {
            if dry_run {
                return UpdateDirective::Fail(UpdateError::ApplyFailed);
            }
            match Updater::download_and_verify(*status, bytes.as_slice(), info.checksum.as_str()) {
                Ok(()) => UpdateDirective::Apply,
                Err(e) => UpdateDirective::Fail(e),
            }
        },
        UpdateEvent::Applied(step) => match step {
            ApplyStep::Applied => UpdateDirective::Restart,
            ApplyStep::Failed(e) => UpdateDirective::Fail(*e),
            _ => UpdateDirective::Fail(UpdateError::ApplyFailed),
        },
    }
}

/// An update is applied only after its bytes were found to hash to the
/// checksum announced for it, and the process restarts only after an update
/// was applied.
pub proof fn lemma_only_verified_updates_apply(
    skip_update: bool,
    dry_run: bool,
    current: Seq<char>,
    event: UpdateEvent,
)
    ensures
        self_update_protocol(skip_update, dry_run, current, event) is Apply ==> (
        event matches UpdateEvent::Downloaded { info, status, bytes } && is_success(status)
            && checksum_text(bytes@) == info.checksum@),
        self_update_protocol(skip_update, dry_run, current, event) is Restart ==> event
            == UpdateEvent::Applied(ApplyStep::Applied),
{
}

/// A dry run never downloads and never applies an update.
pub proof fn lemma_dry_run_never_updates(skip_update: bool, current: Seq<char>, event: UpdateEvent)
    ensures
        !(self_update_protocol(skip_update, true, current, event) is Download),
        !(self_update_protocol(skip_update, true, current, event) is Apply),
{
}

/// What the audit stage does about the records of an audit.
#[derive(Debug, Clone)]
pub enum AuditPlan {
    /// Every dependency is installed.
    Satisfied,
    /// A dry run: these dependencies would be installed.
    Report(Vec<String>),
    /// Carry out these tasks, then audit again.
    Install(Vec<InstallTask>),
}

/// The dependencies that are still missing after the attempt to install them.
#[derive(Debug, Clone)]
pub struct AuditError {
    pub still_missing: Vec<String>,
}

/// Plans the audit stage: nothing to do where nothing is missing; in a dry
/// run a report of what is missing; else one task for each missing
/// dependency.
pub fn run_dependency_audit(
    manager: &DependencyManager,
    deps: &Vec<DependencyStatus>,
    dry_run: bool,
) -> (res:
    AuditPlan)
    ensures
        missing_names(status_views(deps@)).len() == 0 ==> res is Satisfied,
        missing_names(status_views(deps@)).len() > 0 && dry_run ==> (res matches AuditPlan::Report(
            names,
        ) && text_views(names@) == missing_names(status_views(deps@))),
        missing_names(status_views(deps@)).len() > 0 && !dry_run ==> (
        res matches AuditPlan::Install(tasks) && task_views(tasks@) == install_tasks(
            status_views(deps@),
        )),
{
    let missing = DependencyManager::missing_names(deps);
    if missing.len() == 0 {
        AuditPlan::Satisfied
    } else if dry_run {
        AuditPlan::Report(missing)
    } else {
        AuditPlan::Install(manager.install_missing(deps))
    }
}

/// Judges the audit made after the attempt to install: the stage has
/// succeeded exactly when nothing is missing any more; else it fails with
/// the names of exactly the dependencies that are still missing.
pub fn audit_verdict(recheck: &Vec<DependencyStatus>) -> (res: Result<(), AuditError>)
    ensures
        res is Ok <==> missing_names(status_views(recheck@)).len() == 0,
        res matches Err(e) ==> text_views(e.still_missing@) == missing_names(
            status_views(recheck@),
        ),
{
    let missing = DependencyManager::missing_names(recheck);
    if missing.len() == 0 {
        Ok(())
    } else {
        Err(AuditError { still_missing: missing })
    }
}

/// What has happened in the sync stage.
#[derive(Debug, Clone)]
pub enum SyncEvent {
    /// The stage begins.
    Begin,
    /// The server's answer to the version request.
    Server(Reply<String>),
    /// Whether the engine directory exists, and how many entries it holds.
    Tree { present: bool, entries: usize },
    /// The server's answer to the manifest request.
    Manifest(Reply<FileManifest>),
}

/// What the sync stage has to do next.
#[derive(Debug, Clone)]
pub enum SyncDirective {
    /// Ask the server for its version.
    CheckServer,
    /// Look at the engine directory.
    ProbeTree,
    /// Ask the server for the manifest.
    FetchManifest,
    /// Sync the tree by the manifest.
    Incremental(FileManifest),
    /// Install the full archive.
    FullArchive,
    /// Fail the stage.
    Fail(SyncError),
}

/// The sync stage: the server must answer; a tree that is missing or empty
/// is installed from the full archive; else the manifest is asked for, and
/// the tree is synced by it, or installed from the full archive where the
/// manifest cannot be had.
pub open spec fn sync_stage_protocol(event: SyncEvent) -> SyncDirective {
    match event {
        SyncEvent::Begin => SyncDirective::CheckServer,
        SyncEvent::Server(reply) => match reply_outcome(reply) {
            Ok(_) => SyncDirective::ProbeTree,
            Err(e) => SyncDirective::Fail(e),
        },
        SyncEvent::Tree { present, entries } => if !present || entries == 0 {
            SyncDirective::FullArchive
        } else {
            SyncDirective::FetchManifest
        },
        SyncEvent::Manifest(reply) => match chosen_path(reply_outcome(reply)) {
            SyncPath::Incremental(m) => SyncDirective::Incremental(m),
            SyncPath::FullArchive => SyncDirective::FullArchive,
        },
    }
}

/// What the sync stage has to do next, given what has happened.
pub fn run_sync(event: SyncEvent) -> (res: SyncDirective)
    ensures
        res == sync_stage_protocol(event),
{
    match event {
        SyncEvent::Begin => SyncDirective::CheckServer,
        SyncEvent::Server(reply) => match SyncManager::check_server(reply) {
            Ok(_) => SyncDirective::ProbeTree,
            Err(e) => SyncDirective::Fail(e),
        },
        SyncEvent::Tree { present, entries } => if SyncManager::needs_full_archive(present, entries) {
            SyncDirective::FullArchive
        } else {
            SyncDirective::FetchManifest
        },
        SyncEvent::Manifest(reply) => {
            let manifest = SyncManager::get_manifest(reply);
            match SyncManager::sync_path(manifest) {
                SyncPath::Incremental(m) => SyncDirective::Incremental(m),
                SyncPath::FullArchive => SyncDirective::FullArchive,
            }
        },
    }
}

/// A failing manifest request never fails the sync stage: it leads to the
/// full archive.
pub proof fn lemma_sync_stage_falls_back(reply: Reply<FileManifest>)
    requires
        reply is Unreachable || (reply matches Reply::Answered { status, body } && (!is_success(
            status,
        ) || body is None)),
    ensures
        sync_stage_protocol(SyncEvent::Manifest(reply)) is FullArchive,
{
}

/// One piece of work of the build stage.
#[derive(Debug, Clone, Copy, PartialEq, Eq, Structural)]
pub enum BuildTask {
    /// Build the managed application.
    Build,
    /// Record the build that has just succeeded.
    SaveBuildVersion,
    /// Build the renderer bridge.
    BuildRenderFabric,
    /// Run the renderer's validation tests.
    RunValidationTests,
}

/// The work of the build stage, in order: the build and, after it, the
/// record of it, where a rebuild is due; the renderer bridge and its tests
/// in any case. Each task is begun only when the one before it has succeeded.
pub open spec fn build_tasks(needs_rebuild: bool) -> Seq<BuildTask> {
    if needs_rebuild {
        seq![
            BuildTask::Build,
            BuildTask::SaveBuildVersion,
            BuildTask::BuildRenderFabric,
            BuildTask::RunValidationTests,
        ]
    } else {
        seq![BuildTask::BuildRenderFabric, BuildTask::RunValidationTests]
    }
}

/// Plans the build stage.
pub fn run_build(needs_rebuild: bool) -> (res: Vec<BuildTask>)
    ensures
        res@ == build_tasks(needs_rebuild),
{
    let mut tasks: Vec<BuildTask> = Vec::new();
    if needs_rebuild {
        tasks.push(BuildTask::Build);
        tasks.push(BuildTask::SaveBuildVersion);
    }
    tasks.push(BuildTask::BuildRenderFabric);
    tasks.push(BuildTask::RunValidationTests);
    assert(tasks@ =~= build_tasks(needs_rebuild));
    tasks
}

/// The record of a build is written only after the build, never without it.
pub proof fn lemma_version_saved_after_build(needs_rebuild: bool, i: int)
    requires
        0 <= i < build_tasks(needs_rebuild).len(),
        build_tasks(needs_rebuild)[i] == BuildTask::SaveBuildVersion,
    ensures
        i > 0,
        build_tasks(needs_rebuild)[i - 1] == BuildTask::Build,
{
}

} // verus!
