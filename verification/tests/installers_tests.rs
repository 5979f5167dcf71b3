use launcher::commands::{Arg, CommandSpec};
use launcher::config::Config;
use launcher::dependencies::DependencyManager;
use launcher::dependencies::install_o3de::{Answer, O3deProgress, O3deResult, O3deStep};
use launcher::dependencies::installers::{
    InstallError, VsAnswer, VsOutcome, VsProgress, VsStep, RUSTUP_URL, VS_INSTALLER_URL,
};
use launcher::paths::LocalPath;

fn manager() -> DependencyManager {
    DependencyManager::new(Config::with_defaults(Some("/data")))
}

fn deps() -> LocalPath {
    LocalPath::new("/data").join("AAAEngine").join("deps")
}

fn show(arg: &Arg) -> String {
    match arg {
        Arg::Text(t) => t.clone(),
        Arg::Path(p) => {
            let mut s = format!("<{}>", p.root);
            for part in &p.parts {
                s.push('/');
                s.push_str(part);
            }
            s
        }
    }
}

fn shown(command: &CommandSpec) -> Vec<String> {
    let mut words = vec![show(&command.program)];
    words.extend(command.args.iter().map(show));
    words
}

/// Follows the protocol with the answer that `answer` gives to each step.
fn install(answer: impl Fn(O3deStep) -> Answer) -> (O3deStep, Vec<O3deStep>) {
    let mut trace = Vec::new();
    let (mut progress, mut step) =
        DependencyManager::install_o3de(O3deProgress::start(), Answer::Yes);
    loop {
        trace.push(step);
        if matches!(step, O3deStep::Finished(_) | O3deStep::Failed(_)) {
            return (step, trace);
        }
        let next = DependencyManager::install_o3de(progress, answer(step));
        progress = next.0;
        step = next.1;
        assert!(trace.len() < 40);
    }
}

#[test]
fn exit_code_is_read_from_the_marked_line() {
    let code = DependencyManager::installer_exit_code;
    assert_eq!(code("EXIT_CODE:0\n"), 0);
    assert_eq!(code("starting\r\nEXIT_CODE:3010\r\nERROR:none\r\n"), 3010);
    assert_eq!(code("EXIT_CODE:-1\nERROR:The operation was canceled"), -1);
    assert_eq!(code("EXIT_CODE:1602"), 1602);
    assert_eq!(code(""), -1);
    assert_eq!(code("no code here\n"), -1);
    assert_eq!(code(" EXIT_CODE:5\n"), -1);
    assert_eq!(code("EXIT_CODE:\nEXIT_CODE:7\n"), -1);
    assert_eq!(code("EXIT_CODE: 7\n"), -1);
    assert_eq!(code("EXIT_CODE:abc\n"), -1);
    assert_eq!(code("EXIT_CODE:4\nEXIT_CODE:9\n"), 4);
    assert_eq!(code("EXIT_CODE:99999999999\n"), -1);
}

#[test]
fn build_tools_installation_is_judged() {
    let outcome = DependencyManager::vs_install_outcome;
    assert_eq!(outcome(0, false), Ok(VsOutcome::Installed));
    assert_eq!(outcome(0, true), Ok(VsOutcome::Installed));
    assert_eq!(outcome(3010, false), Ok(VsOutcome::RestartRecommended));
    assert_eq!(outcome(-1, true), Ok(VsOutcome::FoundAfterFailure));
    assert_eq!(outcome(1602, true), Ok(VsOutcome::FoundAfterFailure));
    assert_eq!(outcome(-1, false), Err(InstallError::VsBuildToolsFailed(-1)));
    assert_eq!(outcome(1602, false), Err(InstallError::VsBuildToolsFailed(1602)));
}

#[test]
fn installer_script_escapes_its_paths() {
    let script = DependencyManager::vs_install_script("C:\\deps\\vs.exe", "C:\\deps\\vs.log");
    assert!(script.starts_with("\n# Run VS Build Tools installer with elevation\n"));
    assert!(script.contains("$installerPath = 'C:\\\\deps\\\\vs.exe'\n"));
    assert!(script.contains("$logPath = 'C:\\\\deps\\\\vs.log'\n"));
    assert!(script.contains("    '--add', 'Microsoft.VisualStudio.Workload.VCTools',\n"));
    assert!(script.contains("try {\n    $process = [System.Diagnostics.Process]::Start($psi)\n"));
    assert!(script.contains("    Write-Output \"EXIT_CODE:$exitCode\"\n} catch {\n"));
    assert!(script.ends_with("    Write-Output \"ERROR:$($_.Exception.Message)\"\n}\n"));
    assert!(!script.contains("{{"));
    assert_eq!(script.lines().count(), 36);
    let plain = DependencyManager::vs_install_script("/a/b", "/c");
    assert!(plain.contains("$installerPath = '/a/b'\n$logPath = '/c'\n"));
}

#[test]
fn build_tools_installer_commands() {
    let command = DependencyManager::vs_install_command("the script");
    assert_eq!(
        shown(&command),
        vec!["powershell", "-NoProfile", "-ExecutionPolicy", "Bypass", "-Command", "the script"]
    );
    let kill = DependencyManager::kill_command("vs_installer.exe");
    assert_eq!(shown(&kill), vec!["taskkill", "/F", "/IM", "vs_installer.exe"]);
    assert_eq!(
        DependencyManager::vs_stale_processes(),
        vec!["vs_installer.exe", "vs_installershell.exe"]
    );
    let m = manager();
    assert!(m.vs_installer_path().same_as(&deps().join("vs_buildtools.exe")));
    assert!(m.vs_install_log().same_as(&deps().join("vs_install.log")));
    assert_eq!(
        DependencyManager::vs_installer_dir().root,
        "C:\\Program Files (x86)\\Microsoft Visual Studio\\Installer"
    );
    let places = DependencyManager::vs_verification_paths();
    assert_eq!(places.len(), 2);
    assert_eq!(
        places[0].root,
        "C:\\Program Files\\Microsoft Visual Studio\\2022\\BuildTools\\VC\\Tools\\MSVC"
    );
    assert_eq!(
        places[1].root,
        "C:\\Program Files (x86)\\Microsoft Visual Studio\\2022\\BuildTools\\VC\\Tools\\MSVC"
    );
    assert_eq!(VS_INSTALLER_URL, "https://aka.ms/vs/17/release/vs_buildtools.exe");
}

#[test]
fn rust_vulkan_and_tracy_installers() {
    let m = manager();
    assert_eq!(
        RUSTUP_URL,
        "https://static.rust-lang.org/rustup/dist/x86_64-pc-windows-msvc/rustup-init.exe"
    );
    assert_eq!(
        shown(&m.rustup_command()),
        vec!["</data>/AAAEngine/deps/rustup-init.exe", "-y", "--default-toolchain", "stable"]
    );
    assert_eq!(
        m.vulkan_installer_url(),
        "https://sdk.lunarg.com/sdk/download/1.3.290.0/windows/VulkanSDK-1.3.290.0-Installer.exe"
    );
    assert_eq!(
        shown(&m.vulkan_installer_command()),
        vec!["</data>/AAAEngine/deps/VulkanSDK-Installer.exe", "/S"]
    );
    assert_eq!(
        m.tracy_archive_url(),
        "https://github.com/wolfpld/tracy/archive/refs/tags/v0.11.1.zip"
    );
    assert!(m.tracy_archive_path().same_as(&deps().join("tracy.zip")));
    assert_eq!(DependencyManager::installer_result(true, InstallError::RustFailed), Ok(()));
    assert_eq!(
        DependencyManager::installer_result(false, InstallError::VulkanSdkFailed),
        Err(InstallError::VulkanSdkFailed)
    );
}

#[test]
fn built_engine_is_left_alone() {
    let (last, trace) = install(|step| match step {
        O3deStep::ProbeInstalledLibrary => Answer::Yes,
        _ => Answer::No,
    });
    assert_eq!(last, O3deStep::Finished(O3deResult::AlreadyBuilt));
    assert_eq!(trace.len(), 3);
    let (last, trace) = install(|step| match step {
        O3deStep::ProbeBuiltLibrary => Answer::Yes,
        _ => Answer::No,
    });
    assert_eq!(last, O3deStep::Finished(O3deResult::AlreadyBuilt));
    assert_eq!(trace.len(), 4);
}

#[test]
fn engine_is_cloned_built_and_installed() {
    let (last, trace) = install(|step| match step {
        O3deStep::ProbeUserSource
        | O3deStep::ProbeInstalledLibrary
        | O3deStep::ProbeBuiltLibrary
        | O3deStep::ProbeSource
        | O3deStep::ProbeDirectory => Answer::No,
        _ => Answer::Yes,
    });
    assert_eq!(last, O3deStep::Finished(O3deResult::Built { libraries_found: true }));
    assert_eq!(
        trace,
        vec![
            O3deStep::ProbeUserSource,
            O3deStep::ProbeInstalledLibrary,
            O3deStep::ProbeBuiltLibrary,
            O3deStep::ProbeSource,
            O3deStep::ProbeDirectory,
            O3deStep::CreateParent,
            O3deStep::Clone { development: false },
            O3deStep::ProbeBootstrap,
            O3deStep::RunBootstrap,
            O3deStep::CreateBuildDir,
            O3deStep::Configure,
            O3deStep::BuildTarget(0),
            O3deStep::BuildTarget(1),
            O3deStep::BuildTarget(2),
            O3deStep::BuildTarget(3),
            O3deStep::Install,
            O3deStep::ProbeInstalledLibs(0),
            O3deStep::WriteMarker,
            last,
        ]
    );
}

#[test]
fn existing_source_is_not_cloned_again() {
    let (last, trace) = install(|step| match step {
        O3deStep::ProbeInstalledLibrary | O3deStep::ProbeBuiltLibrary => Answer::No,
        O3deStep::ProbeBootstrap => Answer::No,
        O3deStep::BuildTarget(1) => Answer::No,
        O3deStep::Install => Answer::No,
        O3deStep::ProbeInstalledLibs(_) => Answer::No,
        O3deStep::ProbeBuildOutput(i) if i < 2 => Answer::No,
        _ => Answer::Yes,
    });
    assert_eq!(last, O3deStep::Finished(O3deResult::Built { libraries_found: true }));
    assert_eq!(
        trace,
        vec![
            O3deStep::ProbeUserSource,
            O3deStep::ProbeInstalledLibrary,
            O3deStep::ProbeBuiltLibrary,
            O3deStep::ProbeSource,
            O3deStep::ProbeBootstrap,
            O3deStep::CreateBuildDir,
            O3deStep::Configure,
            O3deStep::BuildTarget(0),
            O3deStep::BuildTarget(1),
            O3deStep::Install,
            O3deStep::ProbeInstalledLibs(0),
            O3deStep::ProbeInstalledLibs(1),
            O3deStep::ProbeBuildOutput(0),
            O3deStep::ProbeBuildOutput(1),
            O3deStep::ProbeBuildOutput(2),
            O3deStep::CopyLibraries(2),
            O3deStep::WriteMarker,
            last,
        ]
    );
}

#[test]
fn marker_is_written_even_without_libraries() {
    let (last, trace) = install(|step| match step {
        O3deStep::ProbeSource
        | O3deStep::CreateBuildDir
        | O3deStep::Configure
        | O3deStep::WriteMarker => Answer::Yes,
        _ => Answer::No,
    });
    assert_eq!(last, O3deStep::Finished(O3deResult::Built { libraries_found: false }));
    assert!(trace.contains(&O3deStep::WriteMarker));
    assert!(!trace.iter().any(|s| matches!(s, O3deStep::CopyLibraries(_))));
}

#[test]
fn partial_directory_is_removed_before_cloning() {
    let (_, trace) = install(|step| match step {
        O3deStep::ProbeDirectory | O3deStep::CreateParent => Answer::Yes,
        O3deStep::RemoveDirectory => Answer::Refused,
        O3deStep::Clone { development: true } => Answer::Yes,
        O3deStep::ProbeBootstrap => Answer::Refused,
        _ => Answer::No,
    });
    assert_eq!(
        &trace[4..10],
        &[
            O3deStep::ProbeDirectory,
            O3deStep::RemoveDirectory,
            O3deStep::CreateParent,
            O3deStep::Clone { development: false },
            O3deStep::Clone { development: true },
            O3deStep::ProbeBootstrap,
        ]
    );
}

#[test]
fn engine_installation_failures() {
    let failing = |fail_at: O3deStep, with: Answer| {
        install(move |step| {
            if step == fail_at {
                return with;
            }
            match step {
                O3deStep::ProbeUserSource
                | O3deStep::ProbeInstalledLibrary
                | O3deStep::ProbeBuiltLibrary
                | O3deStep::ProbeSource
                | O3deStep::ProbeDirectory
                | O3deStep::Clone { development: false } => Answer::No,
                _ => Answer::Yes,
            }
        })
        .0
    };
    let failed = |e| O3deStep::Failed(e);
    assert_eq!(
        failing(O3deStep::Clone { development: true }, Answer::No),
        failed(InstallError::CloneFailed)
    );
    assert_eq!(
        failing(O3deStep::Clone { development: false }, Answer::Refused),
        failed(InstallError::SpawnFailed)
    );
    assert_eq!(failing(O3deStep::CreateParent, Answer::No), failed(InstallError::Filesystem));
    assert_eq!(failing(O3deStep::Configure, Answer::No), failed(InstallError::ConfigureFailed));
    assert_eq!(failing(O3deStep::Configure, Answer::Refused), failed(InstallError::SpawnFailed));
    assert_eq!(failing(O3deStep::RunBootstrap, Answer::Refused), failed(InstallError::SpawnFailed));
    assert_eq!(
        failing(O3deStep::RunBootstrap, Answer::No),
        O3deStep::Finished(O3deResult::Built { libraries_found: true })
    );
    assert_eq!(failing(O3deStep::BuildTarget(2), Answer::Refused), failed(InstallError::SpawnFailed));
    assert_eq!(failing(O3deStep::Install, Answer::Refused), failed(InstallError::SpawnFailed));
    assert_eq!(failing(O3deStep::WriteMarker, Answer::Refused), failed(InstallError::Filesystem));
    assert_eq!(failing(O3deStep::CreateBuildDir, Answer::Refused), failed(InstallError::Filesystem));
}

#[test]
fn user_source_is_preferred() {
    let (progress, step) = DependencyManager::install_o3de(O3deProgress::start(), Answer::No);
    assert_eq!(step, O3deStep::ProbeUserSource);
    let (chosen, _) = DependencyManager::install_o3de(progress, Answer::Yes);
    assert!(chosen.user_source);
    let (other, _) = DependencyManager::install_o3de(progress, Answer::Refused);
    assert!(!other.user_source);
    let m = manager();
    assert!(m.o3de_source_dir(true).same_as(&LocalPath::new("C:\\O3DE-Source")));
    assert!(m
        .o3de_source_dir(false)
        .same_as(&LocalPath::new("/data").join("AAAEngine").join("o3de")));
    assert!(DependencyManager::o3de_user_source_marker()
        .same_as(&LocalPath::new("C:\\O3DE-Source").join("CMakeLists.txt")));
}

#[test]
fn engine_commands() {
    let m = manager();
    let source = LocalPath::new("D:\\o3de");
    assert_eq!(
        shown(&m.o3de_clone_command(&source, false)),
        vec![
            "git",
            "clone",
            "--depth",
            "1",
            "--branch",
            "2510.1",
            "https://github.com/o3de/o3de.git",
            "<D:\\o3de>",
        ]
    );
    assert_eq!(shown(&m.o3de_clone_command(&source, true))[5], "development");
    let bootstrap = DependencyManager::o3de_bootstrap_command(&source);
    assert_eq!(shown(&bootstrap), vec!["cmd", "/C", "<D:\\o3de>/python/get_python.bat"]);
    assert!(bootstrap.dir.unwrap().same_as(&source));
    let configure = DependencyManager::o3de_configure_command(&source);
    assert_eq!(
        shown(&configure),
        vec![
            "cmake",
            "-B",
            "<D:\\o3de>/build/windows",
            "-S",
            "<D:\\o3de>",
            "-G",
            "Visual Studio 17 2022",
            "-A",
            "x64",
            "-DLY_DISABLE_TEST_MODULES=ON",
            "-DLY_UNITY_BUILD=ON",
            "-DCMAKE_INSTALL_PREFIX",
            "<D:\\o3de>/install",
        ]
    );
    assert_eq!(configure.env.len(), 1);
    assert_eq!(configure.env[0].name, "O3DE_SNAP");
    assert_eq!(show(&configure.env[0].value), "1");
    assert_eq!(
        DependencyManager::o3de_build_targets(),
        vec!["AzCore", "AzFramework", "Atom_RHI.Public", "Atom_RPI.Public"]
    );
    assert_eq!(
        shown(&DependencyManager::o3de_target_command(&source, "AzCore")),
        vec![
            "cmake",
            "--build",
            "<D:\\o3de>/build/windows",
            "--config",
            "profile",
            "--target",
            "AzCore",
            "--parallel",
        ]
    );
    assert_eq!(
        shown(&DependencyManager::o3de_install_command(&source)),
        vec![
            "cmake",
            "--install",
            "<D:\\o3de>/build/windows",
            "--config",
            "profile",
            "--prefix",
            "<D:\\o3de>/install",
        ]
    );
}

#[test]
fn engine_locations() {
    let m = manager();
    let source = LocalPath::new("D:\\o3de");
    let lib_dir = source.join("install").join("lib").join("profile");
    assert!(DependencyManager::o3de_library_dir(&source).same_as(&lib_dir));
    let (installed, built) = DependencyManager::o3de_built_markers(&source);
    assert!(installed.same_as(&lib_dir.join("AzCore.lib")));
    let build = source.join("build").join("windows");
    assert!(built.same_as(&build.join("lib").join("profile").join("AzCore.lib")));
    assert!(DependencyManager::o3de_source_marker(&source).same_as(&source.join("CMakeLists.txt")));
    let keys = DependencyManager::o3de_key_libraries(&source);
    assert_eq!(keys.len(), 2);
    assert!(keys[0].same_as(&lib_dir.join("AzCore.lib")));
    assert!(keys[1].same_as(&lib_dir.join("AzFramework.lib")));
    let outputs = DependencyManager::o3de_build_outputs(&source);
    assert_eq!(outputs.len(), 3);
    assert!(outputs[0].same_as(&build.join("lib").join("profile")));
    assert!(outputs[1].same_as(&build.join("bin").join("profile")));
    assert!(outputs[2].same_as(&build.join("Bin64").join("profile")));
    assert!(m
        .o3de_version_marker()
        .same_as(&LocalPath::new("/data").join("AAAEngine").join("o3de_version.txt")));
}

/// Follows the build tools' protocol with the answer that `answer` gives to
/// each step.
fn install_vs(answer: impl Fn(VsStep) -> VsAnswer) -> (VsStep, Vec<VsStep>) {
    let mut trace = Vec::new();
    let (mut progress, mut step) =
        DependencyManager::install_vs_build_tools(VsProgress::start(), &VsAnswer::No);
    loop {
        trace.push(step);
        if matches!(step, VsStep::Finished(_) | VsStep::Failed(_)) {
            return (step, trace);
        }
        let next = DependencyManager::install_vs_build_tools(progress, &answer(step));
        progress = next.0;
        step = next.1;
        assert!(trace.len() < 20);
    }
}

fn script_output(code: &str) -> VsAnswer {
    VsAnswer::Output(format!("starting\nEXIT_CODE:{}\n", code))
}

#[test]
fn build_tools_are_installed_by_the_script() {
    let (last, trace) = install_vs(|step| match step {
        VsStep::ProbeInstallerDir => VsAnswer::No,
        VsStep::RunScript => script_output("0"),
        _ => VsAnswer::Yes,
    });
    assert_eq!(last, VsStep::Finished(VsOutcome::Installed));
    assert_eq!(
        trace,
        vec![
            VsStep::CreateDeps,
            VsStep::ProbeInstallerDir,
            VsStep::Download,
            VsStep::RunScript,
            last,
        ]
    );
    let (last, _) = install_vs(|step| match step {
        VsStep::RunScript => script_output("3010"),
        _ => VsAnswer::Yes,
    });
    assert_eq!(last, VsStep::Finished(VsOutcome::RestartRecommended));
}

#[test]
fn stale_installers_are_ended_first() {
    let (_, trace) = install_vs(|step| match step {
        VsStep::KillStale(_) => VsAnswer::No,
        VsStep::RunScript => script_output("0"),
        _ => VsAnswer::Yes,
    });
    assert_eq!(
        &trace[..6],
        &[
            VsStep::CreateDeps,
            VsStep::ProbeInstallerDir,
            VsStep::KillStale(0),
            VsStep::KillStale(1),
            VsStep::Pause(1),
            VsStep::Download,
        ]
    );
}

#[test]
fn reported_failure_is_checked_against_the_disk() {
    let run = |found_at: Option<usize>| {
        install_vs(move |step| match step {
            VsStep::ProbeInstallerDir => VsAnswer::No,
            VsStep::RunScript => script_output("1602"),
            VsStep::ProbeTools(i) if Some(i) == found_at => VsAnswer::Yes,
            VsStep::ProbeTools(_) => VsAnswer::No,
            _ => VsAnswer::Yes,
        })
    };
    let (last, trace) = run(None);
    assert_eq!(last, VsStep::Failed(InstallError::VsBuildToolsFailed(1602)));
    assert_eq!(
        &trace[3..],
        &[
            VsStep::RunScript,
            VsStep::Pause(2),
            VsStep::ProbeTools(0),
            VsStep::ProbeTools(1),
            last,
        ]
    );
    assert_eq!(run(Some(0)).0, VsStep::Finished(VsOutcome::FoundAfterFailure));
    assert_eq!(run(Some(1)).0, VsStep::Finished(VsOutcome::FoundAfterFailure));
    assert_eq!(run(Some(0)).1.len(), 7);
}

#[test]
fn build_tools_installation_failures() {
    let failing = |fail_at: VsStep, with: VsAnswer| {
        install_vs(move |step| {
            if step == fail_at {
                return with.clone();
            }
            match step {
                VsStep::RunScript => script_output("0"),
                VsStep::ProbeTools(_) => VsAnswer::No,
                _ => VsAnswer::Yes,
            }
        })
        .0
    };
    assert_eq!(
        failing(VsStep::CreateDeps, VsAnswer::No),
        VsStep::Failed(InstallError::Filesystem)
    );
    assert_eq!(
        failing(VsStep::Download, VsAnswer::No),
        VsStep::Failed(InstallError::DownloadFailed)
    );
    assert_eq!(
        failing(VsStep::RunScript, VsAnswer::No),
        VsStep::Failed(InstallError::SpawnFailed)
    );
    assert_eq!(
        failing(VsStep::RunScript, VsAnswer::Output("no code".to_string())),
        VsStep::Failed(InstallError::VsBuildToolsFailed(-1))
    );
    assert_eq!(
        failing(VsStep::RunScript, VsAnswer::Output("EXIT_CODE:-1\n".to_string())),
        VsStep::Failed(InstallError::VsBuildToolsFailed(-1))
    );
}

#[test]
fn installer_plans() {
    let m = manager();
    let rust = m.rust_plan();
    assert!(rust.directory.same_as(&deps()));
    assert_eq!(rust.url, RUSTUP_URL);
    assert!(rust.installer.same_as(&deps().join("rustup-init.exe")));
    assert_eq!(shown(&rust.command), shown(&m.rustup_command()));
    assert_eq!(rust.failure, InstallError::RustFailed);
    let vulkan = m.vulkan_plan();
    assert!(vulkan.directory.same_as(&deps()));
    assert_eq!(vulkan.url, m.vulkan_installer_url());
    assert!(vulkan.installer.same_as(&deps().join("VulkanSDK-Installer.exe")));
    assert_eq!(shown(&vulkan.command), vec!["</data>/AAAEngine/deps/VulkanSDK-Installer.exe", "/S"]);
    assert_eq!(vulkan.failure, InstallError::VulkanSdkFailed);
    let tracy = m.tracy_plan();
    assert!(tracy.directory.same_as(&deps()));
    assert_eq!(tracy.url, "https://github.com/wolfpld/tracy/archive/refs/tags/v0.11.1.zip");
    assert!(tracy.archive.same_as(&deps().join("tracy.zip")));
    assert!(tracy.extract_into.same_as(&deps()));
}
