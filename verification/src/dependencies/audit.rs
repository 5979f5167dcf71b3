//! The audit as a whole: all records in their fixed order, what is shown of
//! them, what is to be installed, and whether the audit stage has succeeded.

use vstd::prelude::*;

use crate::dependencies::{
    cmake_status, opt_path, rust_status, vs_status, DependencyManager, DependencyStatus,
    StatusView, ToolProbe, CMAKE, O3DE, RUST, TRACY, VS_BUILD_TOOLS, VULKAN_SDK,
};
use crate::dependencies::o3de::{engine_status, O3deCandidate};
use crate::dependencies::tracy::{tracy_status, TracyCandidate};
use crate::dependencies::vs::{vswhere_search, VswhereRun};
use crate::dependencies::vulkan::{opt_env_sdk, opt_names, vulkan_status, EnvSdk};
use crate::text::{concat2, concat3, opt_text, str_eq};

verus! {

/// What the probes found of the machine, for all dependencies.
#[derive(Debug, Clone)]
pub struct Environment {
    /// What was found at each of `vswhere_locations`, in that order.
    pub vswhere: Vec<VswhereRun>,
    /// The C++ compiler on the search path, asked without arguments.
    pub compiler: ToolProbe,
    /// The Rust compiler on the search path, asked for its version.
    pub rustc: ToolProbe,
    /// What the Vulkan installer's variable points to.
    pub vulkan_variable: Option<EnvSdk>,
    /// The names of the directories at the Vulkan SDK's standard place.
    pub vulkan_versions: Option<Vec<String>>,
    /// What was found at each of `tracy_locations`, in that order.
    pub tracy: Vec<TracyCandidate>,
    /// What was found of each directory that may hold the engine, in order.
    pub o3de: Vec<O3deCandidate>,
    /// CMake on the search path, asked for its version.
    pub cmake: ToolProbe,
}

/// The records of an audit: one for each required dependency, in the order
/// build tools, Rust, Vulkan SDK, profiler, engine, CMake.
pub open spec fn audit_records(config: crate::config::Config, env: Environment) -> Seq<StatusView> {
    seq![
        vs_status(
            vswhere_search(env.vswhere@, 0),
            opt_path(env.compiler.path),
            opt_text(env.compiler.output),
        ),
        rust_status(opt_path(env.rustc.path), opt_text(env.rustc.output)),
        vulkan_status(
            config.vulkan_version@,
            opt_env_sdk(env.vulkan_variable),
            opt_names(env.vulkan_versions),
        ),
        tracy_status(config.tracy_version@, env.tracy@),
        engine_status(config.install_dir@.push("o3de"@), env.o3de@),
        cmake_status(opt_path(env.cmake.path), opt_text(env.cmake.output)),
    ]
}

/// The views of a sequence of records.
pub open spec fn status_views(records: Seq<DependencyStatus>) -> Seq<StatusView> {
    Seq::new(records.len(), |i: int| records[i]@)
}

/// A line of the status report.
#[derive(Debug, Clone)]
pub struct StatusLine {
    /// Whether the line reports a dependency that is installed.
    pub ok: bool,
    pub text: String,
}

/// The line that reports a record: the name with the version, or `unknown`
/// where none is known; for a missing dependency the name with a notice.
pub open spec fn status_line(record: StatusView) -> (bool, Seq<char>) {
    if record.installed {
        (
            true,
            record.name + ": "@ + match record.version {
                Some(v) => v,
                None => "unknown"@,
            },
        )
    } else {
        (false, record.name + ": NOT INSTALLED"@)
    }
}

/// What is to be done about a missing dependency.
#[derive(Debug, Clone)]
pub enum InstallTask {
    VsBuildTools,
    Rust,
    VulkanSdk,
    Tracy,
    O3de,
    /// CMake comes with the build tools: the user is told so.
    CMakeAdvice,
    /// A record under a name that the launcher does not know.
    Unknown(String),
}

/// A task as plain values.
pub enum TaskView {
    VsBuildTools,
    Rust,
    VulkanSdk,
    Tracy,
    O3de,
    CMakeAdvice,
    Unknown(Seq<char>),
}

impl View for InstallTask {
    type V = TaskView;

    open spec fn view(&self) -> TaskView {
        match self {
            InstallTask::VsBuildTools => TaskView::VsBuildTools,
            InstallTask::Rust => TaskView::Rust,
            InstallTask::VulkanSdk => TaskView::VulkanSdk,
            InstallTask::Tracy => TaskView::Tracy,
            InstallTask::O3de => TaskView::O3de,
            InstallTask::CMakeAdvice => TaskView::CMakeAdvice,
            InstallTask::Unknown(name) => TaskView::Unknown(name@),
        }
    }
}

/// The task for a dependency of the given name.
pub open spec fn task_for(name: Seq<char>) -> TaskView {
    if name == VS_BUILD_TOOLS@ {
        TaskView::VsBuildTools
    } else if name == RUST@ {
        TaskView::Rust
    } else if name == VULKAN_SDK@ {
        TaskView::VulkanSdk
    } else if name == TRACY@ {
        TaskView::Tracy
    } else if name == O3DE@ {
        TaskView::O3de
    } else if name == CMAKE@ {
        TaskView::CMakeAdvice
    } else {
        TaskView::Unknown(name)
    }
}

/// The names of the records that are not installed, in the records' order.
pub open spec fn missing_names(records: Seq<StatusView>) -> Seq<Seq<char>>
    decreases records.len(),
{
    if records.len() == 0 {
        Seq::empty()
    } else if records.last().installed {
        missing_names(records.drop_last())
    } else {
        missing_names(records.drop_last()).push(records.last().name)
    }
}

/// The tasks for the records that are not installed, in the records' order.
pub open spec fn install_tasks(records: Seq<StatusView>) -> Seq<TaskView> {
    Seq::new(missing_names(records).len(), |i: int| task_for(missing_names(records)[i]))
}

/// The views of a sequence of tasks.
pub open spec fn task_views(tasks: Seq<InstallTask>) -> Seq<TaskView> {
    Seq::new(tasks.len(), |i: int| tasks[i]@)
}

impl DependencyManager {
    /// Audits all dependencies from what the probes found.
    pub fn check_all(&self, env: &Environment) -> (res: Vec<DependencyStatus>)
        ensures
            status_views(res@) == audit_records(self.config(), *env),
    {
        let reported = Self::find_vs_via_vswhere(&env.vswhere);
        let mut records: Vec<DependencyStatus> = Vec::new();
        records.push(self.check_vs_build_tools(&reported, &env.compiler));
        records.push(self.check_rust(&env.rustc));
        records.push(self.check_vulkan_sdk(&env.vulkan_variable, &env.vulkan_versions));
        records.push(self.check_tracy(&env.tracy));
        records.push(self.check_o3de(&env.o3de));
        records.push(self.check_cmake(&env.cmake));
        assert(status_views(records@) =~= audit_records(self.config(), *env));
        records
    }

    /// The line that reports one record.
    pub fn status_line(record: &DependencyStatus) -> (res: StatusLine)
        ensures
            (res.ok, res.text@) == status_line(record@),
    {
        if record.installed {
            let text = match &record.version {
                Some(v) => concat3(record.name.as_str(), ": ", v.as_str()),
                None => concat3(record.name.as_str(), ": ", "unknown"),
            };
            StatusLine { ok: true, text }
        } else {
            StatusLine { ok: false, text: concat2(record.name.as_str(), ": NOT INSTALLED") }
        }
    }

    /// The status report: one line for each record, in order.
    pub fn print_status(&self, deps: &Vec<DependencyStatus>) -> (res: Vec<StatusLine>)
        ensures
            res.len() == deps.len(),
            forall|i: int|
                0 <= i < deps.len() ==> (#[trigger] res[i].ok, res[i].text@) == status_line(
                    deps[i]@,
                ),
    {
        let mut lines: Vec<StatusLine> = Vec::new();
        let mut i: usize = 0;
        while i < deps.len()
            invariant
                i <= deps.len(),
                lines.len() == i,
                forall|k: int|
                    0 <= k < i ==> (#[trigger] lines[k].ok, lines[k].text@) == status_line(
                        deps[k]@,
                    ),
            decreases deps.len() - i,
        {
            lines.push(Self::status_line(&deps[i]));
            i = i + 1;
        }
        lines
    }

    /// The names of the dependencies that are not installed.
    pub fn missing_names(deps: &Vec<DependencyStatus>) -> (res: Vec<String>)
        ensures
            crate::paths::text_views(res@) == missing_names(status_views(deps@)),
    {
        let ghost records = status_views(deps@);
        let mut names: Vec<String> = Vec::new();
        let mut i: usize = 0;
        assert(records.take(0) =~= Seq::empty());
        while i < deps.len()
            invariant
                records == status_views(deps@),
                i <= deps.len(),
                crate::paths::text_views(names@) =~= missing_names(records.take(i as int)),
            decreases deps.len() - i,
        {
            assert(records.take(i + 1).drop_last() =~= records.take(i as int));
            if !deps[i].installed {
                names.push(deps[i].name.clone());
            }
            i = i + 1;
        }
        assert(records.take(deps.len() as int) =~= records);
        names
    }

    /// The task for a dependency of the given name.
    pub fn task_for(name: &str) -> (res: InstallTask)
        ensures
            res@ == task_for(name@),
    {
        if str_eq(name, VS_BUILD_TOOLS) {
            InstallTask::VsBuildTools
        } else if str_eq(name, RUST) {
            InstallTask::Rust
        } else if str_eq(name, VULKAN_SDK) {
            InstallTask::VulkanSdk
        } else if str_eq(name, TRACY) {
            InstallTask::Tracy
        } else if str_eq(name, O3DE) {
            InstallTask::O3de
        } else if str_eq(name, CMAKE) {
            InstallTask::CMakeAdvice
        } else {
            InstallTask::Unknown(name.to_owned())
        }
    }

    /// What is to be done about the records that are not installed: one task
    /// for each, in the records' order, chosen by the record's name.
    pub fn install_missing(&self, deps: &Vec<DependencyStatus>) -> (res: Vec<InstallTask>)
        ensures
            task_views(res@) == install_tasks(status_views(deps@)),
    {
        let names = Self::missing_names(deps);
        let mut tasks: Vec<InstallTask> = Vec::new();
        let mut i: usize = 0;
        while i < names.len()
            invariant
                i <= names.len(),
                tasks.len() == i,
                forall|k: int| 0 <= k < i ==> (#[trigger] tasks[k])@ == task_for(names[k]@),
            decreases names.len() - i,
        {
            tasks.push(Self::task_for(names[i].as_str()));
            i = i + 1;
        }
        assert(task_views(tasks@) =~= install_tasks(status_views(deps@)));
        tasks
    }
}

/// Nothing is to be installed exactly when every record is installed.
pub proof fn lemma_nothing_missing(records: Seq<StatusView>)
    ensures
        missing_names(records).len() == 0 <==> (forall|i: int|
            0 <= i < records.len() ==> (#[trigger] records[i]).installed),
        install_tasks(records).len() == missing_names(records).len(),
    decreases records.len(),
{
    if records.len() > 0 {
        lemma_nothing_missing(records.drop_last());
        if missing_names(records).len() == 0 {
            assert forall|i: int| 0 <= i < records.len() implies (#[trigger] records[i]).installed by {
                if i < records.len() - 1 {
                    assert(records.drop_last()[i] == records[i]);
                }
            }
        } else if records.last().installed {
            let j = choose|j: int|
                0 <= j < records.drop_last().len() && !(#[trigger] records.drop_last()[j]).installed;
            assert(records[j] == records.drop_last()[j]);
        }
    }
}

/// Every name reported missing is the name of a record that is not
/// installed, and every such record's name is reported.
pub proof fn lemma_missing_names_exact(records: Seq<StatusView>, name: Seq<char>)
    ensures
        missing_names(records).contains(name) <==> (exists|i: int|
            0 <= i < records.len() && !(#[trigger] records[i]).installed && records[i].name
                == name),
    decreases records.len(),
{
    if records.len() > 0 {
        let rest = records.drop_last();
        lemma_missing_names_exact(rest, name);
        if missing_names(records).contains(name) {
            if !records.last().installed && records.last().name == name {
                assert(!records[records.len() - 1].installed);
            } else {
                if !records.last().installed {
                    let k = choose|k: int|
                        0 <= k < missing_names(records).len() && missing_names(records)[k] == name;
                    assert(missing_names(rest)[k] == name);
                }
                assert(missing_names(rest).contains(name));
                let i = choose|i: int|
                    0 <= i < rest.len() && !(#[trigger] rest[i]).installed && rest[i].name == name;
                assert(records[i] == rest[i]);
            }
        }
        if exists|i: int|
            0 <= i < records.len() && !(#[trigger] records[i]).installed && records[i].name
                == name {
            let i = choose|i: int|
                0 <= i < records.len() && !(#[trigger] records[i]).installed && records[i].name
                    == name;
            if i == records.len() - 1 {
                assert(missing_names(records).last() == name);
            } else {
                assert(rest[i] == records[i]);
                assert(missing_names(rest).contains(name));
                let k = choose|k: int|
                    0 <= k < missing_names(rest).len() && missing_names(rest)[k] == name;
                if !records.last().installed {
                    assert(missing_names(records)[k] == name);
                }
            }
        }
    }
}

/// An audit yields exactly one record for each required dependency, under
/// its name and in the fixed order, whatever was found of the machine.
pub proof fn lemma_audit_names(config: crate::config::Config, env: Environment)
    ensures
        audit_records(config, env).len() == 6,
        audit_records(config, env)[0].name == VS_BUILD_TOOLS@,
        audit_records(config, env)[1].name == RUST@,
        audit_records(config, env)[2].name == VULKAN_SDK@,
        audit_records(config, env)[3].name == TRACY@,
        audit_records(config, env)[4].name == O3DE@,
        audit_records(config, env)[5].name == CMAKE@,
{
    crate::dependencies::o3de::lemma_search_keeps_name(env.o3de@, 0);
}

} // verus!
