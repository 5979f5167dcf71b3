//! Installing the O3DE engine by building it from source: the protocol of
//! the installation and the commands that it runs.

use vstd::prelude::*;

use crate::dependencies::DependencyManager;
use crate::dependencies::installers::InstallError;

verus! {

/// Where a user keeps a source tree of the engine.
pub const O3DE_USER_SOURCE: &'static str = "C:\\O3DE-Source";

/// The file whose presence marks a source tree.
pub const SOURCE_MARKER: &'static str = "CMakeLists.txt";

/// The repository from which the engine's source is cloned.
pub const O3DE_REPOSITORY: &'static str = "https://github.com/o3de/o3de.git";

/// The extension of the files that are copied as libraries.
pub const LIBRARY_EXTENSION: &'static str = "lib";

/// The number of targets that are built.
pub const TARGET_COUNT: usize = 4;

/// How the installation ended.
#[derive(Debug, Clone, Copy, PartialEq, Eq, Structural)]
pub enum O3deResult {
    /// The engine's libraries were found built; nothing was done.
    AlreadyBuilt,
    /// The build was run and the version marker written. `libraries_found`
    /// says whether the libraries were found where they are expected.
    Built { libraries_found: bool },
}

/// What the caller has to do next while the engine is installed. Each step
/// but the last two is answered with an `Answer`.
#[derive(Debug, Clone, Copy, PartialEq, Eq, Structural)]
pub enum O3deStep {
    /// Nothing was handed out yet.
    Start,
    /// Does the user's source tree hold the source marker?
    ProbeUserSource,
    /// Does the core library exist in the install tree?
    ProbeInstalledLibrary,
    /// Does the core library exist in the build tree?
    ProbeBuiltLibrary,
    /// Does the source directory hold the source marker?
    ProbeSource,
    /// Does the source directory exist?
    ProbeDirectory,
    /// Remove the source directory with all it holds.
    RemoveDirectory,
    /// Create the directory above the source directory.
    CreateParent,
    /// Clone the repository: at the configured version, or from the
    /// development branch.
    Clone { development: bool },
    /// Does the script that sets up the engine's Python exist?
    ProbeBootstrap,
    /// Run that script.
    RunBootstrap,
    /// Create the build directory.
    CreateBuildDir,
    /// Configure the build.
    Configure,
    /// Build the target of the given index.
    BuildTarget(usize),
    /// Install what was built into the install tree.
    Install,
    /// Does the key library of the given index exist in the install tree?
    ProbeInstalledLibs(usize),
    /// Does the core library exist in the build output of the given index?
    ProbeBuildOutput(usize),
    /// Create the library directory of the install tree and copy every
    /// library of the build output of the given index into it.
    CopyLibraries(usize),
    /// Write the version marker.
    WriteMarker,
    Finished(O3deResult),
    Failed(InstallError),
}

/// The answer to a step: yes, for a probe that found what it looked for and
/// for a process or an operation that succeeded; no, for a probe that did
/// not and a process that ended with a failure; refused, where the process
/// could not be started or the file system gave an error.
#[derive(Debug, Clone, Copy, PartialEq, Eq, Structural)]
pub enum Answer {
    Yes,
    No,
    Refused,
}

/// How far the installation has come.
#[derive(Debug, Clone, Copy, PartialEq, Eq, Structural)]
pub struct O3deProgress {
    /// The step whose answer is awaited.
    pub awaiting: O3deStep,
    /// Whether the user's source tree is built, not the launcher's own.
    pub user_source: bool,
    /// Whether the libraries were found after the build.
    pub libraries_found: bool,
}

/// The installation goes on with the given step.
pub open spec fn go_on(progress: O3deProgress, step: O3deStep) -> (O3deProgress, O3deStep) {
    (O3deProgress { awaiting: step, ..progress }, step)
}

/// What follows a process: the next step where it ran, whatever its exit
/// status; a failure where it could not be started.
pub open spec fn after_process(progress: O3deProgress, answer: Answer, next: O3deStep) -> (
    O3deProgress,
    O3deStep,
) {
    if answer is Refused {
        go_on(progress, O3deStep::Failed(InstallError::SpawnFailed))
    } else {
        go_on(progress, next)
    }
}

/// What follows an operation on the file system: the next step where it
/// succeeded, a failure where it did not.
pub open spec fn after_operation(progress: O3deProgress, answer: Answer, next: O3deStep) -> (
    O3deProgress,
    O3deStep,
) {
    if answer is Yes {
        go_on(progress, next)
    } else {
        go_on(progress, O3deStep::Failed(InstallError::Filesystem))
    }
}

/// The protocol of the installation: from the progress and the answer to
/// the step last handed out, the new progress and the next step.
///
/// An engine found built is left alone. A directory without the source is
/// removed and cloned anew, from the development branch where the
/// configured version cannot be cloned. The Python setup may fail; the
/// configuration may not. Targets are built one after the other until one
/// fails; the install step follows in any case, and its status is not
/// looked at. Afterwards the libraries are looked for in the install tree,
/// then in the build outputs, from where they are copied. The version
/// marker is written whether or not they were found.
pub open spec fn o3de_protocol(progress: O3deProgress, answer: Answer) -> (O3deProgress, O3deStep) {
    match progress.awaiting {
        O3deStep::Start => go_on(progress, O3deStep::ProbeUserSource),
        O3deStep::ProbeUserSource => go_on(
            O3deProgress { user_source: answer is Yes, ..progress },
            O3deStep::ProbeInstalledLibrary,
        ),
        O3deStep::ProbeInstalledLibrary => if answer is Yes {
            go_on(progress, O3deStep::Finished(O3deResult::AlreadyBuilt))
        } else {
            go_on(progress, O3deStep::ProbeBuiltLibrary)
        },
        O3deStep::ProbeBuiltLibrary => if answer is Yes {
            go_on(progress, O3deStep::Finished(O3deResult::AlreadyBuilt))
        } else {
            go_on(progress, O3deStep::ProbeSource)
        },
        O3deStep::ProbeSource => if answer is Yes {
            go_on(progress, O3deStep::ProbeBootstrap)
        } else {
            go_on(progress, O3deStep::ProbeDirectory)
        },
        O3deStep::ProbeDirectory => if answer is Yes {
            go_on(progress, O3deStep::RemoveDirectory)
        } else {
            go_on(progress, O3deStep::CreateParent)
        },
        O3deStep::RemoveDirectory => go_on(progress, O3deStep::CreateParent),
        O3deStep::CreateParent => after_operation(
            progress,
            answer,
            O3deStep::Clone { development: false },
        ),
        O3deStep::Clone { development } => match answer {
            Answer::Yes => go_on(progress, O3deStep::ProbeBootstrap),
            Answer::No => if development {
                go_on(progress, O3deStep::Failed(InstallError::CloneFailed))
            } else {
                go_on(progress, O3deStep::Clone { development: true })
            },
            Answer::Refused => go_on(progress, O3deStep::Failed(InstallError::SpawnFailed)),
        },
        O3deStep::ProbeBootstrap => if answer is Yes {
            go_on(progress, O3deStep::RunBootstrap)
        } else {
            go_on(progress, O3deStep::CreateBuildDir)
        },
        O3deStep::RunBootstrap => after_process(progress, answer, O3deStep::CreateBuildDir),
        O3deStep::CreateBuildDir => after_operation(progress, answer, O3deStep::Configure),
        O3deStep::Configure => match answer {
            Answer::Yes => go_on(progress, O3deStep::BuildTarget(0)),
            Answer::No => go_on(progress, O3deStep::Failed(InstallError::ConfigureFailed)),
            Answer::Refused => go_on(progress, O3deStep::Failed(InstallError::SpawnFailed)),
        },
        O3deStep::BuildTarget(i) => match answer {
            Answer::Yes => if i < TARGET_COUNT - 1 {
                go_on(progress, O3deStep::BuildTarget((i + 1) as usize))
            } else {
                go_on(progress, O3deStep::Install)
            },
            Answer::No => go_on(progress, O3deStep::Install),
            Answer::Refused => go_on(progress, O3deStep::Failed(InstallError::SpawnFailed)),
        },
        O3deStep::Install => after_process(progress, answer, O3deStep::ProbeInstalledLibs(0)),
        O3deStep::ProbeInstalledLibs(i) => if answer is Yes {
            go_on(O3deProgress { libraries_found: true, ..progress }, O3deStep::WriteMarker)
        } else if i < 1 {
            go_on(progress, O3deStep::ProbeInstalledLibs((i + 1) as usize))
        } else {
            go_on(progress, O3deStep::ProbeBuildOutput(0))
        },
        O3deStep::ProbeBuildOutput(i) => if answer is Yes {
            go_on(O3deProgress { libraries_found: true, ..progress }, O3deStep::CopyLibraries(i))
        } else if i < 2 {
            go_on(progress, O3deStep::ProbeBuildOutput((i + 1) as usize))
        } else {
            go_on(progress, O3deStep::WriteMarker)
        },
        O3deStep::CopyLibraries(_) => after_operation(progress, answer, O3deStep::WriteMarker),
        O3deStep::WriteMarker => after_operation(
            progress,
            answer,
            O3deStep::Finished(O3deResult::Built { libraries_found: progress.libraries_found }),
        ),
        O3deStep::Finished(_) => (progress, progress.awaiting),
        O3deStep::Failed(_) => (progress, progress.awaiting),
    }
}

impl O3deProgress {
    /// The progress of an installation that has not begun.
    pub fn start() -> (res: O3deProgress)
        ensures
            res == (O3deProgress {
                awaiting: O3deStep::Start,
                user_source: false,
                libraries_found: false,
            }),
    {
        O3deProgress { awaiting: O3deStep::Start, user_source: false, libraries_found: false }
    }

    fn go_on(self, step: O3deStep) -> (res: (O3deProgress, O3deStep))
        ensures
            res == go_on(self, step),
    {
        (
            O3deProgress {
                awaiting: step,
                user_source: self.user_source,
                libraries_found: self.libraries_found,
            },
            step,
        )
    }

    fn after_process(self, answer: Answer, next: O3deStep) -> (res: (O3deProgress, O3deStep))
        ensures
            res == after_process(self, answer, next),
    {
        match answer {
            Answer::Refused => self.go_on(O3deStep::Failed(InstallError::SpawnFailed)),
            _ => self.go_on(next),
        }
    }

    fn after_operation(self, answer: Answer, next: O3deStep) -> (res: (O3deProgress, O3deStep))
        ensures
            res == after_operation(self, answer, next),
    {
        match answer {
            Answer::Yes => self.go_on(next),
            _ => self.go_on(O3deStep::Failed(InstallError::Filesystem)),
        }
    }

    fn found(self) -> (res: O3deProgress)
        ensures
            res == (O3deProgress { libraries_found: true, ..self }),
    {
        O3deProgress { awaiting: self.awaiting, user_source: self.user_source, libraries_found: true }
    }
}

impl DependencyManager {
    /// Installs the engine, step by step. Begin with
    /// `O3deProgress::start()`; carry out the step that comes back and call
    /// again with the progress that came back and the answer to that step,
    /// until the step is `Finished` or `Failed`.
    pub fn install_o3de(progress: O3deProgress, answer: Answer) -> (res: (O3deProgress, O3deStep))
        ensures
            res == o3de_protocol(progress, answer),
    {
        let yes = match answer {
            Answer::Yes => true,
            _ => false,
        };
        match progress.awaiting {
            O3deStep::Start => progress.go_on(O3deStep::ProbeUserSource),
            O3deStep::ProbeUserSource => {
                let chosen = O3deProgress {
                    awaiting: progress.awaiting,
                    user_source: yes,
                    libraries_found: progress.libraries_found,
                };
                chosen.go_on(O3deStep::ProbeInstalledLibrary)
            },
            O3deStep::ProbeInstalledLibrary => if yes {
                progress.go_on(O3deStep::Finished(O3deResult::AlreadyBuilt))
            } else {
                progress.go_on(O3deStep::ProbeBuiltLibrary)
            },
            O3deStep::ProbeBuiltLibrary => if yes {
                progress.go_on(O3deStep::Finished(O3deResult::AlreadyBuilt))
            } else {
                progress.go_on(O3deStep::ProbeSource)
            },
            O3deStep::ProbeSource => if yes {
                progress.go_on(O3deStep::ProbeBootstrap)
            } else {
                progress.go_on(O3deStep::ProbeDirectory)
            },
            O3deStep::ProbeDirectory => if yes {
                progress.go_on(O3deStep::RemoveDirectory)
            } else {
                progress.go_on(O3deStep::CreateParent)
            },
            O3deStep::RemoveDirectory => progress.go_on(O3deStep::CreateParent),
            O3deStep::CreateParent => progress.after_operation(
                answer,
                O3deStep::Clone { development: false },
            ),
            O3deStep::Clone { development } => match answer {
                Answer::Yes => progress.go_on(O3deStep::ProbeBootstrap),
                Answer::No => if development {
                    progress.go_on(O3deStep::Failed(InstallError::CloneFailed))
                } else {
                    progress.go_on(O3deStep::Clone { development: true })
                },
                Answer::Refused => progress.go_on(O3deStep::Failed(InstallError::SpawnFailed)),
            },
            O3deStep::ProbeBootstrap => if yes {
                progress.go_on(O3deStep::RunBootstrap)
            } else {
                progress.go_on(O3deStep::CreateBuildDir)
            },
            O3deStep::RunBootstrap => progress.after_process(answer, O3deStep::CreateBuildDir),
            O3deStep::CreateBuildDir => progress.after_operation(answer, O3deStep::Configure),
            O3deStep::Configure => match answer {
                Answer::Yes => progress.go_on(O3deStep::BuildTarget(0)),
                Answer::No => progress.go_on(O3deStep::Failed(InstallError::ConfigureFailed)),
                Answer::Refused => progress.go_on(O3deStep::Failed(InstallError::SpawnFailed)),
            },
            O3deStep::BuildTarget(i) => match answer {
                Answer::Yes => if i < TARGET_COUNT - 1 {
                    progress.go_on(O3deStep::BuildTarget(i + 1))
                } else {
                    progress.go_on(O3deStep::Install)
                },
                Answer::No => progress.go_on(O3deStep::Install),
                Answer::Refused => progress.go_on(O3deStep::Failed(InstallError::SpawnFailed)),
            },
            O3deStep::Install => progress.after_process(answer, O3deStep::ProbeInstalledLibs(0)),
            O3deStep::ProbeInstalledLibs(i) => if yes {
                progress.found().go_on(O3deStep::WriteMarker)
            } else if i < 1 {
                progress.go_on(O3deStep::ProbeInstalledLibs(i + 1))
            } else {
                progress.go_on(O3deStep::ProbeBuildOutput(0))
            },
            O3deStep::ProbeBuildOutput(i) => if yes {
                progress.found().go_on(O3deStep::CopyLibraries(i))
            } else if i < 2 {
                progress.go_on(O3deStep::ProbeBuildOutput(i + 1))
            } else {
                progress.go_on(O3deStep::WriteMarker)
            },
            O3deStep::CopyLibraries(_) => progress.after_operation(answer, O3deStep::WriteMarker),
            O3deStep::WriteMarker => progress.after_operation(
                answer,
                O3deStep::Finished(O3deResult::Built { libraries_found: progress.libraries_found }),
            ),
            O3deStep::Finished(_) => (progress, progress.awaiting),
            O3deStep::Failed(_) => (progress, progress.awaiting),
        }
    }
}

/// An engine that is found built is never touched: the installation ends
/// at once, before any directory is removed or any process run.
pub proof fn lemma_built_engine_is_left_alone(progress: O3deProgress)
    requires
        progress.awaiting is ProbeInstalledLibrary || progress.awaiting is ProbeBuiltLibrary,
    ensures
        o3de_protocol(progress, Answer::Yes).1 == O3deStep::Finished(O3deResult::AlreadyBuilt),
{
}

/// The source directory is removed only where it exists without the source,
/// and the repository is cloned only where the directory holds no source.
pub proof fn lemma_source_is_never_discarded(progress: O3deProgress, answer: Answer)
    ensures
        o3de_protocol(progress, answer).1 is RemoveDirectory ==> progress.awaiting
            is ProbeDirectory && answer is Yes,
        progress.awaiting is ProbeSource && answer is Yes ==> o3de_protocol(progress, answer).1
            is ProbeBootstrap,
{
}

} // verus!
