//! How each missing dependency is installed: where its installer comes
//! from, where it is kept, how it is run, and when it counts as installed.

use vstd::prelude::*;

use crate::commands::{
    arg_views, env_views, location, text, Arg, ArgView, CommandSpec, CommandView,
};
use crate::dependencies::DependencyManager;
use crate::paths::{path_views, text_views, LocalPath};
use crate::text::{
    after_prefix, backslashes_doubled, concat3, double_backslashes, lines_of, lines_text,
    parse_i32, parsed_i32, strip_prefix,
};

verus! {

/// The address of the installer of the Visual Studio build tools.
pub const VS_INSTALLER_URL: &'static str = "https://aka.ms/vs/17/release/vs_buildtools.exe";

/// The address of the installer of the Rust toolchain.
pub const RUSTUP_URL: &'static str =
    "https://static.rust-lang.org/rustup/dist/x86_64-pc-windows-msvc/rustup-init.exe";

/// The time, in seconds, after which the download of the build tools'
/// installer is given up.
pub const VS_DOWNLOAD_TIMEOUT_SECS: u64 = 300;

/// The mark with which the installer script reports the installer's exit code.
pub const EXIT_CODE_MARK: &'static str = "EXIT_CODE:";

/// The installer script up to the installer's path.
pub const VS_SCRIPT_HEAD: &'static str = "\n# Run VS Build Tools installer with elevation\n$installerPath = '";

/// The installer script between the installer's path and the log's path.
pub const VS_SCRIPT_MIDDLE: &'static str = "'\n$logPath = '";

/// The installer script after the log's path.
pub const VS_SCRIPT_TAIL: &'static str = "'\n\n# Build argument list\n$args = @(\n    '--passive',\n    '--wait', \n    '--norestart',\n    '--nocache',\n    '--noUpdateInstaller',\n    '--includeRecommended',\n    '--log', $logPath,\n    '--add', 'Microsoft.VisualStudio.Workload.VCTools',\n    '--add', 'Microsoft.VisualStudio.Component.VC.Tools.x86.x64',\n    '--add', 'Microsoft.VisualStudio.Component.Windows11SDK.22621',\n    '--add', 'Microsoft.VisualStudio.Component.VC.CMake.Project'\n)\n\n# Start elevated process and wait\n$psi = New-Object System.Diagnostics.ProcessStartInfo\n$psi.FileName = $installerPath\n$psi.Arguments = $args -join ' '\n$psi.Verb = 'runas'\n$psi.UseShellExecute = $true\n\ntry {\n    $process = [System.Diagnostics.Process]::Start($psi)\n    $process.WaitForExit()\n    $exitCode = $process.ExitCode\n    Write-Output \"EXIT_CODE:$exitCode\"\n} catch {\n    Write-Output \"EXIT_CODE:-1\"\n    Write-Output \"ERROR:$($_.Exception.Message)\"\n}\n";

/// Why the installation of a dependency was given up.
#[derive(Debug, Clone, Copy, PartialEq, Eq, Structural)]
pub enum InstallError {
    /// The build tools' installer ended with the given code and the tools
    /// were not found afterwards.
    VsBuildToolsFailed(i32),
    /// The Rust installer ended with a failure.
    RustFailed,
    /// The Vulkan SDK's installer ended with a failure.
    VulkanSdkFailed,
    /// The engine's source could not be cloned, neither at the configured
    /// version nor from the development branch.
    CloneFailed,
    /// The engine's build could not be configured.
    ConfigureFailed,
    /// An installer could not be downloaded.
    DownloadFailed,
    /// A process could not be started.
    SpawnFailed,
    /// The local file system refused an operation.
    Filesystem,
    /// An answer was given that does not fit the step that was handed out.
    UnexpectedAnswer,
}

/// How the installation of the build tools ended.
#[derive(Debug, Clone, Copy, PartialEq, Eq, Structural)]
pub enum VsOutcome {
    Installed,
    /// Installed; the system should be restarted.
    RestartRecommended,
    /// The installer reported a failure, but the tools are there.
    FoundAfterFailure,
}

/// The script that runs the build tools' installer with administrator
/// rights and reports its exit code.
pub open spec fn vs_script(installer: Seq<char>, log: Seq<char>) -> Seq<char> {
    VS_SCRIPT_HEAD@ + backslashes_doubled(installer) + VS_SCRIPT_MIDDLE@ + backslashes_doubled(log)
        + VS_SCRIPT_TAIL@
}

/// The index of the first line, from `from` on, that begins with the mark.
pub open spec fn marked_line(lines: Seq<Seq<char>>, from: int) -> Option<int>
    decreases lines.len() - from,
{
    if from < 0 || from >= lines.len() {
        None
    } else if crate::text::begins_with(lines[from], EXIT_CODE_MARK@) {
        Some(from)
    } else {
        marked_line(lines, from + 1)
    }
}

/// The exit code that the script's output reports: the number after the
/// mark on the first line that begins with it; -1 where there is no such
/// line or no number follows the mark.
pub open spec fn reported_exit_code(lines: Seq<Seq<char>>) -> i32 {
    match marked_line(lines, 0) {
        Some(i) => match after_prefix(lines[i], EXIT_CODE_MARK@) {
            Some(rest) => match parsed_i32(rest) {
                Some(code) => code,
                None => -1i32,
            },
            None => -1i32,
        },
        None => -1i32,
    }
}

/// How the installation of the build tools is judged from the installer's
/// exit code and, where that reports no success, from whether the tools are
/// found afterwards.
pub open spec fn vs_outcome(exit_code: i32, tools_found: bool) -> Result<VsOutcome, InstallError> {
    if exit_code == 0 {
        Ok(VsOutcome::Installed)
    } else if exit_code == 3010 {
        Ok(VsOutcome::RestartRecommended)
    } else if tools_found {
        Ok(VsOutcome::FoundAfterFailure)
    } else {
        Err(InstallError::VsBuildToolsFailed(exit_code))
    }
}

/// A command that runs a downloaded installer with the given arguments.
pub open spec fn installer_command(installer: Seq<Seq<char>>, args: Seq<Seq<char>>) -> CommandView {
    CommandView {
        program: ArgView::Path(installer),
        args: Seq::new(args.len(), |i: int| ArgView::Text(args[i])),
        env: Seq::empty(),
        dir: None,
    }
}

/// A command that runs a program found on the search path with the given
/// arguments.
pub open spec fn tool_command(program: Seq<char>, args: Seq<ArgView>) -> CommandView {
    CommandView { program: ArgView::Text(program), args, env: Seq::empty(), dir: None }
}

impl DependencyManager {
    /// The directory in which installers are kept.
    pub open spec fn deps(&self) -> Seq<Seq<char>> {
        self.config().install_dir@.push("deps"@)
    }

    /// Where the build tools' installer is kept.
    pub fn vs_installer_path(&self) -> (res: LocalPath)
        ensures
            res@ == self.deps().push("vs_buildtools.exe"@),
    {
        self.settings().deps_dir().join("vs_buildtools.exe")
    }

    /// Where the build tools' installer writes its log.
    pub fn vs_install_log(&self) -> (res: LocalPath)
        ensures
            res@ == self.deps().push("vs_install.log"@),
    {
        self.settings().deps_dir().join("vs_install.log")
    }

    /// The directory whose presence shows that an installer of Visual Studio
    /// has run on the machine before.
    pub fn vs_installer_dir() -> (res: LocalPath)
        ensures
            res@ == seq!["C:\\Program Files (x86)\\Microsoft Visual Studio\\Installer"@],
    {
        LocalPath::new("C:\\Program Files (x86)\\Microsoft Visual Studio\\Installer")
    }

    /// The command that ends a process of the given image name, so that a
    /// stuck installer does not block a new one.
    pub fn kill_command(image: &str) -> (res: CommandSpec)
        ensures
            res@ == tool_command(
                "taskkill"@,
                seq![ArgView::Text("/F"@), ArgView::Text("/IM"@), ArgView::Text(image@)],
            ),
    {
        let mut args: Vec<Arg> = Vec::new();
        args.push(text("/F"));
        args.push(text("/IM"));
        args.push(text(image));
        let command = CommandSpec { program: text("taskkill"), args, env: Vec::new(), dir: None };
        assert(arg_views(command.args@) =~= seq![
            ArgView::Text("/F"@),
            ArgView::Text("/IM"@),
            ArgView::Text(image@),
        ]);
        assert(env_views(command.env@) =~= Seq::empty());
        command
    }

    /// The image names of the installer processes that are ended first.
    pub fn vs_stale_processes() -> (res: Vec<String>)
        ensures
            text_views(res@) == seq!["vs_installer.exe"@, "vs_installershell.exe"@],
    {
        let mut names: Vec<String> = Vec::new();
        names.push("vs_installer.exe".to_owned());
        names.push("vs_installershell.exe".to_owned());
        assert(text_views(names@) =~= seq!["vs_installer.exe"@, "vs_installershell.exe"@]);
        names
    }

    /// The script that runs the build tools' installer, given the native
    /// paths of the installer and of its log.
    pub fn vs_install_script(installer: &str, log: &str) -> (res: String)
        ensures
            res@ == vs_script(installer@, log@),
    {
        let installer_text = double_backslashes(installer);
        let log_text = double_backslashes(log);
        let mut script = concat3(VS_SCRIPT_HEAD, installer_text.as_str(), VS_SCRIPT_MIDDLE);
        script = concat3(script.as_str(), log_text.as_str(), VS_SCRIPT_TAIL);
        script
    }

    /// The command that runs the installer script.
    pub fn vs_install_command(script: &str) -> (res: CommandSpec)
        ensures
            res@ == tool_command(
                "powershell"@,
                seq![
                    ArgView::Text("-NoProfile"@),
                    ArgView::Text("-ExecutionPolicy"@),
                    ArgView::Text("Bypass"@),
                    ArgView::Text("-Command"@),
                    ArgView::Text(script@),
                ],
            ),
    {
        let mut args: Vec<Arg> = Vec::new();
        args.push(text("-NoProfile"));
        args.push(text("-ExecutionPolicy"));
        args.push(text("Bypass"));
        args.push(text("-Command"));
        args.push(text(script));
        let command = CommandSpec { program: text("powershell"), args, env: Vec::new(), dir: None };
        assert(arg_views(command.args@) =~= seq![
            ArgView::Text("-NoProfile"@),
            ArgView::Text("-ExecutionPolicy"@),
            ArgView::Text("Bypass"@),
            ArgView::Text("-Command"@),
            ArgView::Text(script@),
        ]);
        assert(env_views(command.env@) =~= Seq::empty());
        command
    }

    /// The exit code that the installer script's output reports.
    pub fn installer_exit_code(output: &str) -> (res: i32)
        ensures
            res == reported_exit_code(lines_text(output@)),
    {
        let lines = lines_of(output);
        let ghost texts = text_views(lines@);
        let mut i: usize = 0;
        while i < lines.len()
            invariant
                texts == text_views(lines@),
                texts == lines_text(output@),
                i <= lines.len(),
                marked_line(texts, 0) == marked_line(texts, i as int),
            decreases lines.len() - i,
        {
            assert(texts[i as int] == lines[i as int]@);
            match strip_prefix(lines[i].as_str(), EXIT_CODE_MARK) {
                Some(rest) => {
                    return match parse_i32(rest.as_str()) {
                        Some(code) => code,
                        None => -1,
                    };
                },
                None => {},
            }
            i = i + 1;
        }
        -1
    }

    /// The places of which one shows that the build tools are installed.
    pub fn vs_verification_paths() -> (res: Vec<LocalPath>)
        ensures
            path_views(res@) == seq![
                seq!["C:\\Program Files\\Microsoft Visual Studio\\2022\\BuildTools\\VC\\Tools\\MSVC"@],
                seq![
                    "C:\\Program Files (x86)\\Microsoft Visual Studio\\2022\\BuildTools\\VC\\Tools\\MSVC"@,
                ],
            ],
    {
        let mut places: Vec<LocalPath> = Vec::new();
        places.push(
            LocalPath::new(
                "C:\\Program Files\\Microsoft Visual Studio\\2022\\BuildTools\\VC\\Tools\\MSVC",
            ),
        );
        places.push(
            LocalPath::new(
                "C:\\Program Files (x86)\\Microsoft Visual Studio\\2022\\BuildTools\\VC\\Tools\\MSVC",
            ),
        );
        assert(path_views(places@) =~= seq![
            seq!["C:\\Program Files\\Microsoft Visual Studio\\2022\\BuildTools\\VC\\Tools\\MSVC"@],
            seq![
                "C:\\Program Files (x86)\\Microsoft Visual Studio\\2022\\BuildTools\\VC\\Tools\\MSVC"@,
            ],
        ]);
        places
    }

    /// Judges the installation of the build tools. `tools_found` says
    /// whether one of `vs_verification_paths` exists; it is looked at only
    /// where the exit code reports no success.
    pub fn vs_install_outcome(exit_code: i32, tools_found: bool) -> (res: Result<
        VsOutcome,
        InstallError,
    >)
        ensures
            res == vs_outcome(exit_code, tools_found),
    {
        if exit_code == 0 {
            Ok(VsOutcome::Installed)
        } else if exit_code == 3010 {
            Ok(VsOutcome::RestartRecommended)
        } else if tools_found {
            Ok(VsOutcome::FoundAfterFailure)
        } else {
            Err(InstallError::VsBuildToolsFailed(exit_code))
        }
    }

    /// Where the Rust installer is kept.
    pub fn rustup_path(&self) -> (res: LocalPath)
        ensures
            res@ == self.deps().push("rustup-init.exe"@),
    {
        self.settings().deps_dir().join("rustup-init.exe")
    }

    /// The command that installs the stable Rust toolchain without asking.
    pub fn rustup_command(&self) -> (res: CommandSpec)
        ensures
            res@ == installer_command(
                self.deps().push("rustup-init.exe"@),
                seq!["-y"@, "--default-toolchain"@, "stable"@],
            ),
    {
        let mut args: Vec<Arg> = Vec::new();
        args.push(text("-y"));
        args.push(text("--default-toolchain"));
        args.push(text("stable"));
        let command = CommandSpec {
            program: location(&self.rustup_path()),
            args,
            env: Vec::new(),
            dir: None,
        };
        assert(arg_views(command.args@) =~= installer_command(
            self.deps().push("rustup-init.exe"@),
            seq!["-y"@, "--default-toolchain"@, "stable"@],
        ).args);
        assert(env_views(command.env@) =~= Seq::empty());
        command
    }

    /// The address of the installer of the configured version of the Vulkan SDK.
    pub fn vulkan_installer_url(&self) -> (res: String)
        ensures
            res@ == "https://sdk.lunarg.com/sdk/download/"@ + self.config().vulkan_version@
                + "/windows/VulkanSDK-"@ + self.config().vulkan_version@ + "-Installer.exe"@,
    {
        let version = self.settings().vulkan_version.as_str();
        let head = concat3("https://sdk.lunarg.com/sdk/download/", version, "/windows/VulkanSDK-");
        concat3(head.as_str(), version, "-Installer.exe")
    }

    /// Where the Vulkan SDK's installer is kept.
    pub fn vulkan_installer_path(&self) -> (res: LocalPath)
        ensures
            res@ == self.deps().push("VulkanSDK-Installer.exe"@),
    {
        self.settings().deps_dir().join("VulkanSDK-Installer.exe")
    }

    /// The command that installs the Vulkan SDK silently.
    pub fn vulkan_installer_command(&self) -> (res: CommandSpec)
        ensures
            res@ == installer_command(self.deps().push("VulkanSDK-Installer.exe"@), seq!["/S"@]),
    {
        let mut args: Vec<Arg> = Vec::new();
        args.push(text("/S"));
        let command = CommandSpec {
            program: location(&self.vulkan_installer_path()),
            args,
            env: Vec::new(),
            dir: None,
        };
        assert(arg_views(command.args@) =~= installer_command(
            self.deps().push("VulkanSDK-Installer.exe"@),
            seq!["/S"@],
        ).args);
        assert(env_views(command.env@) =~= Seq::empty());
        command
    }

    /// Judges how an installer ended: a failure is the given error.
    pub fn installer_result(success: bool, error: InstallError) -> (res: Result<(), InstallError>)
        ensures
            res == if success {
                Ok::<(), InstallError>(())
            } else {
                Err::<(), InstallError>(error)
            },
    {
        if success {
            Ok(())
        } else {
            Err(error)
        }
    }

    /// The address of the source archive of the configured version of the profiler.
    pub fn tracy_archive_url(&self) -> (res: String)
        ensures
            res@ == "https://github.com/wolfpld/tracy/archive/refs/tags/v"@
                + self.config().tracy_version@ + ".zip"@,
    {
        concat3(
            "https://github.com/wolfpld/tracy/archive/refs/tags/v",
            self.settings().tracy_version.as_str(),
            ".zip",
        )
    }

    /// Where the profiler's archive is kept while it is extracted into the
    /// directory that holds it.
    pub fn tracy_archive_path(&self) -> (res: LocalPath)
        ensures
            res@ == self.deps().push("tracy.zip"@),
    {
        self.settings().deps_dir().join("tracy.zip")
    }
}

/// The seconds to wait after stale installer processes were ended.
pub const PAUSE_AFTER_CLEANUP_SECS: u64 = 1;

/// The seconds to wait before the tools are looked for after an installer
/// that reported a failure.
pub const PAUSE_BEFORE_VERIFY_SECS: u64 = 2;

/// What the caller has to do next while the build tools are installed.
#[derive(Debug, Clone, Copy, PartialEq, Eq, Structural)]
pub enum VsStep {
    /// Nothing was handed out yet.
    Start,
    /// Create the directory in which installers are kept.
    CreateDeps,
    /// Does the directory of an earlier installer exist?
    ProbeInstallerDir,
    /// End the stale process of the given index.
    KillStale(usize),
    /// Wait for the given number of seconds.
    Pause(u64),
    /// Download the installer to its place.
    Download,
    /// Run the installer script and hand over what it printed.
    RunScript,
    /// Does the verification path of the given index exist?
    ProbeTools(usize),
    Finished(VsOutcome),
    Failed(InstallError),
}

/// The answer to a step of the build tools' installation.
#[derive(Debug, Clone)]
pub enum VsAnswer {
    /// A probe found what it looked for; an operation succeeded.
    Yes,
    /// A probe found nothing; an operation failed.
    No,
    /// What the installer script printed.
    Output(String),
}

/// An answer as plain values.
pub enum VsAnswerView {
    Yes,
    No,
    Output(Seq<char>),
}

impl View for VsAnswer {
    type V = VsAnswerView;

    open spec fn view(&self) -> VsAnswerView {
        match self {
            VsAnswer::Yes => VsAnswerView::Yes,
            VsAnswer::No => VsAnswerView::No,
            VsAnswer::Output(text) => VsAnswerView::Output(text@),
        }
    }
}

/// How far the installation of the build tools has come.
#[derive(Debug, Clone, Copy, PartialEq, Eq, Structural)]
pub struct VsProgress {
    /// The step whose answer is awaited.
    pub awaiting: VsStep,
    /// The exit code that the installer reported, once it has run.
    pub exit_code: i32,
}

/// The installation goes on with the given step.
pub open spec fn vs_go_on(progress: VsProgress, step: VsStep) -> (VsProgress, VsStep) {
    (VsProgress { awaiting: step, ..progress }, step)
}

/// What follows the run of the installer script: the end, where the exit
/// code reports success; else a pause, after which the tools are looked for.
pub open spec fn after_script(progress: VsProgress, exit_code: i32) -> (VsProgress, VsStep) {
    match vs_outcome(exit_code, false) {
        Ok(outcome) => vs_go_on(VsProgress { exit_code, ..progress }, VsStep::Finished(outcome)),
        Err(_) => vs_go_on(
            VsProgress { exit_code, ..progress },
            VsStep::Pause(PAUSE_BEFORE_VERIFY_SECS),
        ),
    }
}

/// The protocol of the build tools' installation: from the progress and the
/// answer to the step last handed out, the new progress and the next step.
///
/// Stale installer processes are ended only where an installer has run
/// before; whether that works is not looked at. The installer is downloaded
/// and run by the installer script. Where the exit code that the script
/// reports is no success, the tools are looked for all the same, and the
/// installation fails only if none of the verification paths exists.
pub open spec fn vs_protocol(progress: VsProgress, answer: VsAnswerView) -> (VsProgress, VsStep) {
    match progress.awaiting {
        VsStep::Start => vs_go_on(progress, VsStep::CreateDeps),
        VsStep::CreateDeps => if answer is Yes {
            vs_go_on(progress, VsStep::ProbeInstallerDir)
        } else {
            vs_go_on(progress, VsStep::Failed(InstallError::Filesystem))
        },
        VsStep::ProbeInstallerDir => if answer is Yes {
            vs_go_on(progress, VsStep::KillStale(0))
        } else {
            vs_go_on(progress, VsStep::Download)
        },
        VsStep::KillStale(i) => if i < 1 {
            vs_go_on(progress, VsStep::KillStale((i + 1) as usize))
        } else {
            vs_go_on(progress, VsStep::Pause(PAUSE_AFTER_CLEANUP_SECS))
        },
        VsStep::Pause(seconds) => if seconds == PAUSE_BEFORE_VERIFY_SECS {
            vs_go_on(progress, VsStep::ProbeTools(0))
        } else {
            vs_go_on(progress, VsStep::Download)
        },
        VsStep::Download => if answer is Yes {
            vs_go_on(progress, VsStep::RunScript)
        } else {
            vs_go_on(progress, VsStep::Failed(InstallError::DownloadFailed))
        },
        VsStep::RunScript => match answer {
            VsAnswerView::Output(text) => after_script(
                progress,
                reported_exit_code(lines_text(text)),
            ),
            _ => vs_go_on(progress, VsStep::Failed(InstallError::SpawnFailed)),
        },
        VsStep::ProbeTools(i) => if answer is Yes {
            vs_go_on(progress, VsStep::Finished(VsOutcome::FoundAfterFailure))
        } else if i < 1 {
            vs_go_on(progress, VsStep::ProbeTools((i + 1) as usize))
        } else {
            vs_go_on(
                progress,
                VsStep::Failed(InstallError::VsBuildToolsFailed(progress.exit_code)),
            )
        },
        VsStep::Finished(_) => (progress, progress.awaiting),
        VsStep::Failed(_) => (progress, progress.awaiting),
    }
}

impl VsProgress {
    /// The progress of an installation that has not begun.
    pub fn start() -> (res: VsProgress)
        ensures
            res == (VsProgress { awaiting: VsStep::Start, exit_code: 0 }),
    {
        VsProgress { awaiting: VsStep::Start, exit_code: 0 }
    }

    fn go_on(self, step: VsStep) -> (res: (VsProgress, VsStep))
        ensures
            res == vs_go_on(self, step),
    {
        (VsProgress { awaiting: step, exit_code: self.exit_code }, step)
    }
}

impl DependencyManager {
    /// Installs the build tools, step by step. Begin with
    /// `VsProgress::start()`; carry out the step that comes back and call
    /// again with the progress that came back and the answer to that step,
    /// until the step is `Finished` or `Failed`.
    pub fn install_vs_build_tools(progress: VsProgress, answer: &VsAnswer) -> (res: (
        VsProgress,
        VsStep,
    ))
        ensures
            res == vs_protocol(progress, answer@),
    {
        let yes = match answer {
            VsAnswer::Yes => true,
            _ => false,
        };
        match progress.awaiting {
            VsStep::Start => progress.go_on(VsStep::CreateDeps),
            VsStep::CreateDeps => if yes {
                progress.go_on(VsStep::ProbeInstallerDir)
            } else {
                progress.go_on(VsStep::Failed(InstallError::Filesystem))
            },
            VsStep::ProbeInstallerDir => if yes {
                progress.go_on(VsStep::KillStale(0))
            } else {
                progress.go_on(VsStep::Download)
            },
            VsStep::KillStale(i) => if i < 1 {
                progress.go_on(VsStep::KillStale(i + 1))
            } else {
                progress.go_on(VsStep::Pause(PAUSE_AFTER_CLEANUP_SECS))
            },
            VsStep::Pause(seconds) => if seconds == PAUSE_BEFORE_VERIFY_SECS {
                progress.go_on(VsStep::ProbeTools(0))
            } else {
                progress.go_on(VsStep::Download)
            },
            VsStep::Download => if yes {
                progress.go_on(VsStep::RunScript)
            } else {
                progress.go_on(VsStep::Failed(InstallError::DownloadFailed))
            },
            VsStep::RunScript => match answer {
                VsAnswer::Output(text) => {
                    let exit_code = Self::installer_exit_code(text.as_str());
                    let reported = VsProgress { awaiting: progress.awaiting, exit_code };
                    match Self::vs_install_outcome(exit_code, false) {
                        Ok(outcome) => reported.go_on(VsStep::Finished(outcome)),
                        Err(_) => reported.go_on(VsStep::Pause(PAUSE_BEFORE_VERIFY_SECS)),
                    }
                },
                _ => progress.go_on(VsStep::Failed(InstallError::SpawnFailed)),
            },
            VsStep::ProbeTools(i) => if yes {
                progress.go_on(VsStep::Finished(VsOutcome::FoundAfterFailure))
            } else if i < 1 {
                progress.go_on(VsStep::ProbeTools(i + 1))
            } else {
                progress.go_on(VsStep::Failed(InstallError::VsBuildToolsFailed(progress.exit_code)))
            },
            VsStep::Finished(_) => (progress, progress.awaiting),
            VsStep::Failed(_) => (progress, progress.awaiting),
        }
    }
}

/// An installer to download and run.
#[derive(Debug, Clone)]
pub struct InstallerPlan {
    /// The directory to create first.
    pub directory: LocalPath,
    /// The address of the installer.
    pub url: String,
    /// Where the installer is kept.
    pub installer: LocalPath,
    /// The command that runs it.
    pub command: CommandSpec,
    /// The error with which the installation fails where the installer does.
    pub failure: InstallError,
}

/// An archive to download and extract.
#[derive(Debug, Clone)]
pub struct ArchivePlan {
    /// The directory to create first.
    pub directory: LocalPath,
    /// The address of the archive.
    pub url: String,
    /// Where the archive is kept until it is extracted.
    pub archive: LocalPath,
    /// The directory into which it is extracted.
    pub extract_into: LocalPath,
}

impl DependencyManager {
    /// How the Rust toolchain is installed.
    pub fn rust_plan(&self) -> (res: InstallerPlan)
        ensures
            res.directory@ == self.deps(),
            res.url@ == RUSTUP_URL@,
            res.installer@ == self.deps().push("rustup-init.exe"@),
            res.command@ == installer_command(
                self.deps().push("rustup-init.exe"@),
                seq!["-y"@, "--default-toolchain"@, "stable"@],
            ),
            res.failure == InstallError::RustFailed,
    {
        InstallerPlan {
            directory: self.settings().deps_dir(),
            url: RUSTUP_URL.to_owned(),
            installer: self.rustup_path(),
            command: self.rustup_command(),
            failure: InstallError::RustFailed,
        }
    }

    /// How the Vulkan SDK is installed.
    pub fn vulkan_plan(&self) -> (res: InstallerPlan)
        ensures
            res.directory@ == self.deps(),
            res.url@ == "https://sdk.lunarg.com/sdk/download/"@ + self.config().vulkan_version@
                + "/windows/VulkanSDK-"@ + self.config().vulkan_version@ + "-Installer.exe"@,
            res.installer@ == self.deps().push("VulkanSDK-Installer.exe"@),
            res.command@ == installer_command(
                self.deps().push("VulkanSDK-Installer.exe"@),
                seq!["/S"@],
            ),
            res.failure == InstallError::VulkanSdkFailed,
    {
        InstallerPlan {
            directory: self.settings().deps_dir(),
            url: self.vulkan_installer_url(),
            installer: self.vulkan_installer_path(),
            command: self.vulkan_installer_command(),
            failure: InstallError::VulkanSdkFailed,
        }
    }

    /// How the profiler is installed: its source archive is extracted into
    /// the directory in which the dependencies are kept.
    pub fn tracy_plan(&self) -> (res: ArchivePlan)
        ensures
            res.directory@ == self.deps(),
            res.url@ == "https://github.com/wolfpld/tracy/archive/refs/tags/v"@
                + self.config().tracy_version@ + ".zip"@,
            res.archive@ == self.deps().push("tracy.zip"@),
            res.extract_into@ == self.deps(),
    {
        ArchivePlan {
            directory: self.settings().deps_dir(),
            url: self.tracy_archive_url(),
            archive: self.tracy_archive_path(),
            extract_into: self.settings().deps_dir(),
        }
    }
}

/// The build tools count as installed after a reported failure only if they
/// were found, and the installation fails with the installer's exit code
/// only when the last verification path shows nothing.
pub proof fn lemma_vs_failure_is_verified(progress: VsProgress, answer: VsAnswerView)
    requires
        !(progress.awaiting is Finished),
        !(progress.awaiting is Failed),
    ensures
        vs_protocol(progress, answer).1 matches VsStep::Failed(
            InstallError::VsBuildToolsFailed(code),
        ) ==> (progress.awaiting matches VsStep::ProbeTools(i) && i >= 1) && !(answer is Yes)
            && code == progress.exit_code,
        vs_protocol(progress, answer).1 == VsStep::Finished(VsOutcome::FoundAfterFailure)
            ==> progress.awaiting is ProbeTools && answer is Yes,
{
}

} // verus!
