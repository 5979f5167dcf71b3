//! The processes that build, test and launch the managed application.

use vstd::prelude::*;

use crate::commands::{
    arg_views, env_views, location, text, variable, Arg, ArgView, CommandSpec, CommandView,
    EnvVar,
};
use crate::orchestrator::{BuildError, BuildOrchestrator};
use crate::paths::LocalPath;

verus! {

/// The command that builds the managed application: the build script of the
/// engine tree, run by PowerShell in that tree, with the locations of the
/// engine, the Vulkan SDK and the profiler in its environment.
pub open spec fn build_command(
    install: Seq<Seq<char>>,
    vulkan: Seq<char>,
    tracy: Seq<char>,
) -> CommandView {
    let engine = install.push("engine"@);
    CommandView {
        program: ArgView::Text("powershell.exe"@),
        args: seq![
            ArgView::Text("-NoProfile"@),
            ArgView::Text("-ExecutionPolicy"@),
            ArgView::Text("Bypass"@),
            ArgView::Text("-File"@),
            ArgView::Path(engine.push("build-orchestrator.ps1"@)),
            ArgView::Text("-InstallDir"@),
            ArgView::Path(engine),
        ],
        env: seq![
            ("O3DE_HOME"@, ArgView::Path(install.push("o3de"@))),
            ("VULKAN_SDK"@, ArgView::Path(install.push("deps"@).push("VulkanSDK\\"@ + vulkan))),
            ("TRACY_DIR"@, ArgView::Path(install.push("deps"@).push("tracy-"@ + tracy))),
        ],
        dir: Some(engine),
    }
}

/// The command that launches the managed application: its executable, run
/// in the engine tree, with the locations of the engine and the Vulkan SDK
/// in its environment.
pub open spec fn launch_command(install: Seq<Seq<char>>, vulkan: Seq<char>) -> CommandView {
    let engine = install.push("engine"@);
    CommandView {
        program: ArgView::Path(engine.push("target"@).push("release"@).push("aaa-mmorpg.exe"@)),
        args: Seq::empty(),
        env: seq![
            ("O3DE_HOME"@, ArgView::Path(install.push("o3de"@))),
            ("VULKAN_SDK"@, ArgView::Path(install.push("deps"@).push("VulkanSDK\\"@ + vulkan))),
        ],
        dir: Some(engine),
    }
}

/// The directory inside the engine tree in which the renderer bridge is built.
pub open spec fn bridge_build_dir(install: Seq<Seq<char>>) -> Seq<Seq<char>> {
    install.push("engine"@).push("atom-bridge"@).push("cpp"@).push("build"@)
}

/// The command that runs a validation test executable, with the location of
/// the Vulkan SDK in its environment.
pub open spec fn validation_command(
    program: Seq<Seq<char>>,
    install: Seq<Seq<char>>,
    vulkan: Seq<char>,
) -> CommandView {
    CommandView {
        program: ArgView::Path(program),
        args: Seq::empty(),
        env: seq![("VULKAN_SDK"@, ArgView::Path(install.push("deps"@).push("VulkanSDK\\"@ + vulkan)))],
        dir: None,
    }
}

/// The run of the validation tests, given which forms of the executable
/// were found.
pub open spec fn validation_run(
    install: Seq<Seq<char>>,
    vulkan: Seq<char>,
    windows_found: bool,
    plain_found: bool,
) -> Result<CommandView, BuildError> {
    let bin = bridge_build_dir(install).push("bin"@);
    if windows_found {
        Ok(validation_command(bin.push("validation_test.exe"@), install, vulkan))
    } else if plain_found {
        Ok(validation_command(bin.push("validation_test"@), install, vulkan))
    } else {
        Err(BuildError::ValidationTestNotFound)
    }
}

/// The two commands that configure and build the renderer bridge, both run
/// in its build directory; the first with the location of the Vulkan SDK in
/// its environment.
pub open spec fn bridge_commands(install: Seq<Seq<char>>, vulkan: Seq<char>) -> Seq<CommandView> {
    seq![
        CommandView {
            program: ArgView::Text("cmake"@),
            args: seq![
                ArgView::Text(".."@),
                ArgView::Text("-DCMAKE_BUILD_TYPE=Release"@),
                ArgView::Text("-DBUILD_VALIDATION_TESTS=ON"@),
            ],
            env: seq![("VULKAN_SDK"@, ArgView::Path(install.push("deps"@).push("VulkanSDK\\"@ + vulkan)))],
            dir: Some(bridge_build_dir(install)),
        },
        CommandView {
            program: ArgView::Text("cmake"@),
            args: seq![
                ArgView::Text("--build"@),
                ArgView::Text("."@),
                ArgView::Text("--config"@),
                ArgView::Text("Release"@),
                ArgView::Text("-j"@),
            ],
            env: Seq::empty(),
            dir: Some(bridge_build_dir(install)),
        },
    ]
}

/// The views of a sequence of commands.
pub open spec fn command_views(commands: Seq<CommandSpec>) -> Seq<CommandView> {
    Seq::new(commands.len(), |i: int| commands[i]@)
}

/// The view of the outcome of preparing a command.
pub open spec fn prepared(res: Result<CommandSpec, BuildError>) -> Result<CommandView, BuildError> {
    match res {
        Ok(c) => Ok(c@),
        Err(e) => Err(e),
    }
}

impl BuildOrchestrator {
    /// Where the build script lies.
    pub fn build_script(&self) -> (res: LocalPath)
        ensures
            res@ == self.engine().push("build-orchestrator.ps1"@),
    {
        self.settings().engine_dir().join("build-orchestrator.ps1")
    }

    /// Where the managed application's executable lies.
    pub fn game_executable(&self) -> (res: LocalPath)
        ensures
            res@ == self.engine().push("target"@).push("release"@).push("aaa-mmorpg.exe"@),
    {
        self.settings().engine_dir().join("target").join("release").join("aaa-mmorpg.exe")
    }

    /// Where the renderer bridge is built.
    pub fn bridge_build_dir(&self) -> (res: LocalPath)
        ensures
            res@ == bridge_build_dir(self.config().install_dir@),
    {
        self.settings().engine_dir().join("atom-bridge").join("cpp").join("build")
    }

    /// Where the validation test executable lies: under its Windows name
    /// first, under its plain name second.
    pub fn validation_tests(&self) -> (res: (LocalPath, LocalPath))
        ensures
            res.0@ == bridge_build_dir(self.config().install_dir@).push("bin"@).push(
                "validation_test.exe"@,
            ),
            res.1@ == bridge_build_dir(self.config().install_dir@).push("bin"@).push(
                "validation_test"@,
            ),
    {
        let bin = self.bridge_build_dir().join("bin");
        (bin.join("validation_test.exe"), bin.join("validation_test"))
    }

    fn vulkan_variable(&self) -> (res: EnvVar)
        ensures
            res.name@ == "VULKAN_SDK"@,
            res.value@ == ArgView::Path(
                self.config().install_dir@.push("deps"@).push(
                    "VulkanSDK\\"@ + self.config().vulkan_version@,
                ),
            ),
    {
        variable("VULKAN_SDK", self.settings().vulkan_sdk_dir())
    }

    fn engine_variable(&self) -> (res: EnvVar)
        ensures
            res.name@ == "O3DE_HOME"@,
            res.value@ == ArgView::Path(self.config().install_dir@.push("o3de"@)),
    {
        variable("O3DE_HOME", self.settings().o3de_dir())
    }

    /// Prepares the build of the managed application: the command to run,
    /// or an error where the build script is missing.
    pub fn run_build(&self, script_exists: bool) -> (res: Result<CommandSpec, BuildError>)
        ensures
            prepared(res) == if script_exists {
                Ok::<CommandView, BuildError>(
                    build_command(
                        self.config().install_dir@,
                        self.config().vulkan_version@,
                        self.config().tracy_version@,
                    ),
                )
            } else {
                Err::<CommandView, BuildError>(BuildError::ScriptNotFound)
            },
    {
        if !script_exists {
            return Err(BuildError::ScriptNotFound);
        }
        let engine = self.settings().engine_dir();
        let mut args: Vec<Arg> = Vec::new();
        args.push(text("-NoProfile"));
        args.push(text("-ExecutionPolicy"));
        args.push(text("Bypass"));
        args.push(text("-File"));
        args.push(location(&self.build_script()));
        args.push(text("-InstallDir"));
        args.push(location(&engine));
        let mut env: Vec<EnvVar> = Vec::new();
        env.push(self.engine_variable());
        env.push(self.vulkan_variable());
        env.push(variable("TRACY_DIR", self.settings().tracy_dir()));
        let command = CommandSpec { program: text("powershell.exe"), args, env, dir: Some(engine) };
        proof {
            let expected = build_command(
                self.config().install_dir@,
                self.config().vulkan_version@,
                self.config().tracy_version@,
            );
            assert(arg_views(command.args@) =~= expected.args);
            assert(env_views(command.env@) =~= expected.env);
        }
        Ok(command)
    }

    /// Judges how the build ended.
    pub fn build_result(success: bool, code: Option<i32>) -> (res: Result<(), BuildError>)
        ensures
            res == if success {
                Ok::<(), BuildError>(())
            } else {
                Err::<(), BuildError>(BuildError::BuildFailed(code))
            },
    {
        if success {
            Ok(())
        } else {
            Err(BuildError::BuildFailed(code))
        }
    }

    /// Prepares the launch of the managed application: the command to
    /// start, or an error where the executable is missing.
    pub fn launch_game(&self, executable_exists: bool) -> (res: Result<CommandSpec, BuildError>)
        ensures
            prepared(res) == if executable_exists {
                Ok::<CommandView, BuildError>(
                    launch_command(self.config().install_dir@, self.config().vulkan_version@),
                )
            } else {
                Err::<CommandView, BuildError>(BuildError::GameNotFound)
            },
    {
        if !executable_exists {
            return Err(BuildError::GameNotFound);
        }
        let mut env: Vec<EnvVar> = Vec::new();
        env.push(self.engine_variable());
        env.push(self.vulkan_variable());
        let command = CommandSpec {
            program: location(&self.game_executable()),
            args: Vec::new(),
            env,
            dir: Some(self.settings().engine_dir()),
        };
        proof {
            let expected = launch_command(
                self.config().install_dir@,
                self.config().vulkan_version@,
            );
            assert(arg_views(command.args@) =~= expected.args);
            assert(env_views(command.env@) =~= expected.env);
        }
        Ok(command)
    }

    /// The commands that configure and build the renderer bridge, in order.
    /// The build directory is created first; the second command runs only
    /// when the first has succeeded.
    pub fn build_render_fabric(&self) -> (res: Vec<CommandSpec>)
        ensures
            command_views(res@) == bridge_commands(
                self.config().install_dir@,
                self.config().vulkan_version@,
            ),
    {
        let mut configure_args: Vec<Arg> = Vec::new();
        configure_args.push(text(".."));
        configure_args.push(text("-DCMAKE_BUILD_TYPE=Release"));
        configure_args.push(text("-DBUILD_VALIDATION_TESTS=ON"));
        let mut configure_env: Vec<EnvVar> = Vec::new();
        configure_env.push(self.vulkan_variable());
        let configure = CommandSpec {
            program: text("cmake"),
            args: configure_args,
            env: configure_env,
            dir: Some(self.bridge_build_dir()),
        };
        let mut build_args: Vec<Arg> = Vec::new();
        build_args.push(text("--build"));
        build_args.push(text("."));
        build_args.push(text("--config"));
        build_args.push(text("Release"));
        build_args.push(text("-j"));
        let build = CommandSpec {
            program: text("cmake"),
            args: build_args,
            env: Vec::new(),
            dir: Some(self.bridge_build_dir()),
        };
        let mut commands: Vec<CommandSpec> = Vec::new();
        proof {
            let expected = bridge_commands(
                self.config().install_dir@,
                self.config().vulkan_version@,
            );
            assert(arg_views(configure.args@) =~= expected[0].args);
            assert(env_views(configure.env@) =~= expected[0].env);
            assert(arg_views(build.args@) =~= expected[1].args);
            assert(env_views(build.env@) =~= expected[1].env);
            assert(configure@ == expected[0]);
            assert(build@ == expected[1]);
        }
        commands.push(configure);
        commands.push(build);
        assert(command_views(commands@) =~= bridge_commands(
            self.config().install_dir@,
            self.config().vulkan_version@,
        ));
        commands
    }

    /// Prepares the run of the renderer's validation tests: the executable
    /// under its Windows name, where that exists; else under its plain name,
    /// where that exists; else an error. How the tests end does not fail the
    /// build.
    pub fn run_validation_tests(&self, windows_found: bool, plain_found: bool) -> (res: Result<
        CommandSpec,
        BuildError,
    >)
        ensures
            prepared(res) == validation_run(
                self.config().install_dir@,
                self.config().vulkan_version@,
                windows_found,
                plain_found,
            ),
    {
        let (windows_name, plain_name) = self.validation_tests();
        if windows_found {
            Ok(self.run_test_exe(&windows_name))
        } else if plain_found {
            Ok(self.run_test_exe(&plain_name))
        } else {
            Err(BuildError::ValidationTestNotFound)
        }
    }

    /// The command that runs a validation test executable.
    pub fn run_test_exe(&self, test_exe: &LocalPath) -> (res: CommandSpec)
        ensures
            res@ == validation_command(
                test_exe@,
                self.config().install_dir@,
                self.config().vulkan_version@,
            ),
    {
        let mut env: Vec<EnvVar> = Vec::new();
        env.push(self.vulkan_variable());
        let command = CommandSpec { program: location(test_exe), args: Vec::new(), env, dir: None };
        proof {
            let expected = validation_command(
                test_exe@,
                self.config().install_dir@,
                self.config().vulkan_version@,
            );
            assert(arg_views(command.args@) =~= expected.args);
            assert(env_views(command.env@) =~= expected.env);
        }
        command
    }
}

} // verus!
