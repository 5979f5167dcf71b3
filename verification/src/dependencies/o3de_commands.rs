//! The locations and the commands of the O3DE installation.

use vstd::prelude::*;

use crate::commands::{
    arg_views, env_views, location, text, text_variable, Arg, ArgView, CommandSpec, CommandView,
    EnvVar,
};
use crate::dependencies::DependencyManager;
use crate::dependencies::install_o3de::{O3DE_REPOSITORY, O3DE_USER_SOURCE, SOURCE_MARKER};
use crate::dependencies::o3de_layout::CORE_LIBRARY;
use crate::paths::{path_views, text_views, LocalPath};

verus! {

/// The directory in which the engine is built: the user's source tree, or
/// the launcher's own place for the engine.
pub open spec fn source_dir(managed: Seq<Seq<char>>, user_source: bool) -> Seq<Seq<char>> {
    if user_source {
        seq![O3DE_USER_SOURCE@]
    } else {
        managed
    }
}

/// The build tree of a source directory.
pub open spec fn build_tree(source: Seq<Seq<char>>) -> Seq<Seq<char>> {
    source.push("build"@).push("windows"@)
}

/// The install tree of a source directory.
pub open spec fn install_tree(source: Seq<Seq<char>>) -> Seq<Seq<char>> {
    source.push("install"@)
}

/// The directory of the install tree that holds the libraries.
pub open spec fn library_dir(source: Seq<Seq<char>>) -> Seq<Seq<char>> {
    install_tree(source).push("lib"@).push("profile"@)
}

/// The command that clones the engine's source, without history, at the
/// given branch or tag.
pub open spec fn clone_command(source: Seq<Seq<char>>, branch: Seq<char>) -> CommandView {
    CommandView {
        program: ArgView::Text("git"@),
        args: seq![
            ArgView::Text("clone"@),
            ArgView::Text("--depth"@),
            ArgView::Text("1"@),
            ArgView::Text("--branch"@),
            ArgView::Text(branch),
            ArgView::Text(O3DE_REPOSITORY@),
            ArgView::Path(source),
        ],
        env: Seq::empty(),
        dir: None,
    }
}

/// The command that sets up the engine's Python.
pub open spec fn bootstrap_command(source: Seq<Seq<char>>) -> CommandView {
    CommandView {
        program: ArgView::Text("cmd"@),
        args: seq![
            ArgView::Text("/C"@),
            ArgView::Path(source.push("python"@).push("get_python.bat"@)),
        ],
        env: Seq::empty(),
        dir: Some(source),
    }
}

/// The command that configures the engine's build.
pub open spec fn configure_command(source: Seq<Seq<char>>) -> CommandView {
    CommandView {
        program: ArgView::Text("cmake"@),
        args: seq![
            ArgView::Text("-B"@),
            ArgView::Path(build_tree(source)),
            ArgView::Text("-S"@),
            ArgView::Path(source),
            ArgView::Text("-G"@),
            ArgView::Text("Visual Studio 17 2022"@),
            ArgView::Text("-A"@),
            ArgView::Text("x64"@),
            ArgView::Text("-DLY_DISABLE_TEST_MODULES=ON"@),
            ArgView::Text("-DLY_UNITY_BUILD=ON"@),
            ArgView::Text("-DCMAKE_INSTALL_PREFIX"@),
            ArgView::Path(install_tree(source)),
        ],
        env: seq![("O3DE_SNAP"@, ArgView::Text("1"@))],
        dir: Some(source),
    }
}

/// The command that builds one target on all processors.
pub open spec fn target_command(source: Seq<Seq<char>>, target: Seq<char>) -> CommandView {
    CommandView {
        program: ArgView::Text("cmake"@),
        args: seq![
            ArgView::Text("--build"@),
            ArgView::Path(build_tree(source)),
            ArgView::Text("--config"@),
            ArgView::Text("profile"@),
            ArgView::Text("--target"@),
            ArgView::Text(target),
            ArgView::Text("--parallel"@),
        ],
        env: Seq::empty(),
        dir: None,
    }
}

/// The command that installs what was built into the install tree.
pub open spec fn install_command(source: Seq<Seq<char>>) -> CommandView {
    CommandView {
        program: ArgView::Text("cmake"@),
        args: seq![
            ArgView::Text("--install"@),
            ArgView::Path(build_tree(source)),
            ArgView::Text("--config"@),
            ArgView::Text("profile"@),
            ArgView::Text("--prefix"@),
            ArgView::Path(install_tree(source)),
        ],
        env: Seq::empty(),
        dir: None,
    }
}

impl DependencyManager {
    /// The launcher's own place for the engine.
    pub open spec fn managed_engine(&self) -> Seq<Seq<char>> {
        self.config().install_dir@.push("o3de"@)
    }

    /// The file that marks the user's source tree.
    pub fn o3de_user_source_marker() -> (res: LocalPath)
        ensures
            res@ == seq![O3DE_USER_SOURCE@, SOURCE_MARKER@],
    {
        let res = LocalPath::new(O3DE_USER_SOURCE).join(SOURCE_MARKER);
        assert(res@ =~= seq![O3DE_USER_SOURCE@, SOURCE_MARKER@]);
        res
    }

    /// The directory in which the engine is built.
    pub fn o3de_source_dir(&self, user_source: bool) -> (res: LocalPath)
        ensures
            res@ == source_dir(self.managed_engine(), user_source),
    {
        if user_source {
            LocalPath::new(O3DE_USER_SOURCE)
        } else {
            self.settings().o3de_dir()
        }
    }

    /// The build tree of a source directory.
    pub fn o3de_build_tree(source: &LocalPath) -> (res: LocalPath)
        ensures
            res@ == build_tree(source@),
    {
        source.join("build").join("windows")
    }

    /// The install tree of a source directory.
    pub fn o3de_install_tree(source: &LocalPath) -> (res: LocalPath)
        ensures
            res@ == install_tree(source@),
    {
        source.join("install")
    }

    /// The directory of the install tree that holds the libraries.
    pub fn o3de_library_dir(source: &LocalPath) -> (res: LocalPath)
        ensures
            res@ == library_dir(source@),
    {
        source.join("install").join("lib").join("profile")
    }

    /// The two places of which one shows that the engine is built already:
    /// the core library in the install tree, and in the build tree.
    pub fn o3de_built_markers(source: &LocalPath) -> (res: (LocalPath, LocalPath))
        ensures
            res.0@ == library_dir(source@).push(CORE_LIBRARY@),
            res.1@ == build_tree(source@).push("lib"@).push("profile"@).push(CORE_LIBRARY@),
    {
        (
            Self::o3de_library_dir(source).join(CORE_LIBRARY),
            Self::o3de_build_tree(source).join("lib").join("profile").join(CORE_LIBRARY),
        )
    }

    /// The file that marks a directory as holding the source.
    pub fn o3de_source_marker(source: &LocalPath) -> (res: LocalPath)
        ensures
            res@ == source@.push(SOURCE_MARKER@),
    {
        source.join(SOURCE_MARKER)
    }

    /// The script that sets up the engine's Python.
    pub fn o3de_bootstrap_script(source: &LocalPath) -> (res: LocalPath)
        ensures
            res@ == source@.push("python"@).push("get_python.bat"@),
    {
        source.join("python").join("get_python.bat")
    }

    /// The command that clones the engine's source: at the configured
    /// version, or from the development branch.
    pub fn o3de_clone_command(&self, source: &LocalPath, development: bool) -> (res: CommandSpec)
        ensures
            res@ == clone_command(
                source@,
                if development {
                    "development"@
                } else {
                    self.config().o3de_version@
                },
            ),
    {
        let branch = if development {
            "development".to_owned()
        } else {
            self.settings().o3de_version.clone()
        };
        let mut args: Vec<Arg> = Vec::new();
        args.push(text("clone"));
        args.push(text("--depth"));
        args.push(text("1"));
        args.push(text("--branch"));
        args.push(text(branch.as_str()));
        args.push(text(O3DE_REPOSITORY));
        args.push(location(source));
        let command = CommandSpec { program: text("git"), args, env: Vec::new(), dir: None };
        assert(arg_views(command.args@) =~= clone_command(source@, branch@).args);
        assert(env_views(command.env@) =~= Seq::empty());
        command
    }

    /// The command that sets up the engine's Python.
    pub fn o3de_bootstrap_command(source: &LocalPath) -> (res: CommandSpec)
        ensures
            res@ == bootstrap_command(source@),
    {
        let mut args: Vec<Arg> = Vec::new();
        args.push(text("/C"));
        args.push(location(&Self::o3de_bootstrap_script(source)));
        let command = CommandSpec {
            program: text("cmd"),
            args,
            env: Vec::new(),
            dir: Some(source.duplicate()),
        };
        assert(arg_views(command.args@) =~= bootstrap_command(source@).args);
        assert(env_views(command.env@) =~= Seq::empty());
        command
    }

    /// The command that configures the engine's build.
    pub fn o3de_configure_command(source: &LocalPath) -> (res: CommandSpec)
        ensures
            res@ == configure_command(source@),
    {
        let mut args: Vec<Arg> = Vec::new();
        args.push(text("-B"));
        args.push(location(&Self::o3de_build_tree(source)));
        args.push(text("-S"));
        args.push(location(source));
        args.push(text("-G"));
        args.push(text("Visual Studio 17 2022"));
        args.push(text("-A"));
        args.push(text("x64"));
        args.push(text("-DLY_DISABLE_TEST_MODULES=ON"));
        args.push(text("-DLY_UNITY_BUILD=ON"));
        args.push(text("-DCMAKE_INSTALL_PREFIX"));
        args.push(location(&Self::o3de_install_tree(source)));
        let mut env: Vec<EnvVar> = Vec::new();
        env.push(text_variable("O3DE_SNAP", "1"));
        let command = CommandSpec {
            program: text("cmake"),
            args,
            env,
            dir: Some(source.duplicate()),
        };
        assert(arg_views(command.args@) =~= configure_command(source@).args);
        assert(env_views(command.env@) =~= configure_command(source@).env);
        command
    }

    /// The targets that are built, in order.
    pub fn o3de_build_targets() -> (res: Vec<String>)
        ensures
            text_views(res@) == seq![
                "AzCore"@,
                "AzFramework"@,
                "Atom_RHI.Public"@,
                "Atom_RPI.Public"@,
            ],
    {
        let mut targets: Vec<String> = Vec::new();
        targets.push("AzCore".to_owned());
        targets.push("AzFramework".to_owned());
        targets.push("Atom_RHI.Public".to_owned());
        targets.push("Atom_RPI.Public".to_owned());
        assert(text_views(targets@) =~= seq![
            "AzCore"@,
            "AzFramework"@,
            "Atom_RHI.Public"@,
            "Atom_RPI.Public"@,
        ]);
        targets
    }

    /// The command that builds one target.
    pub fn o3de_target_command(source: &LocalPath, target: &str) -> (res: CommandSpec)
        ensures
            res@ == target_command(source@, target@),
    {
        let mut args: Vec<Arg> = Vec::new();
        args.push(text("--build"));
        args.push(location(&Self::o3de_build_tree(source)));
        args.push(text("--config"));
        args.push(text("profile"));
        args.push(text("--target"));
        args.push(text(target));
        args.push(text("--parallel"));
        let command = CommandSpec { program: text("cmake"), args, env: Vec::new(), dir: None };
        assert(arg_views(command.args@) =~= target_command(source@, target@).args);
        assert(env_views(command.env@) =~= Seq::empty());
        command
    }

    /// The command that installs what was built.
    pub fn o3de_install_command(source: &LocalPath) -> (res: CommandSpec)
        ensures
            res@ == install_command(source@),
    {
        let mut args: Vec<Arg> = Vec::new();
        args.push(text("--install"));
        args.push(location(&Self::o3de_build_tree(source)));
        args.push(text("--config"));
        args.push(text("profile"));
        args.push(text("--prefix"));
        args.push(location(&Self::o3de_install_tree(source)));
        let command = CommandSpec { program: text("cmake"), args, env: Vec::new(), dir: None };
        assert(arg_views(command.args@) =~= install_command(source@).args);
        assert(env_views(command.env@) =~= Seq::empty());
        command
    }

    /// The libraries of which one, in the install tree, shows that the
    /// installation has worked.
    pub fn o3de_key_libraries(source: &LocalPath) -> (res: Vec<LocalPath>)
        ensures
            path_views(res@) == seq![
                library_dir(source@).push(CORE_LIBRARY@),
                library_dir(source@).push("AzFramework.lib"@),
            ],
    {
        let dir = Self::o3de_library_dir(source);
        let mut places: Vec<LocalPath> = Vec::new();
        places.push(dir.join(CORE_LIBRARY));
        places.push(dir.join("AzFramework.lib"));
        assert(path_views(places@) =~= seq![
            library_dir(source@).push(CORE_LIBRARY@),
            library_dir(source@).push("AzFramework.lib"@),
        ]);
        places
    }

    /// The directories of the build tree in which the build may have left
    /// the libraries, in the order in which they are looked at.
    pub fn o3de_build_outputs(source: &LocalPath) -> (res: Vec<LocalPath>)
        ensures
            path_views(res@) == seq![
                build_tree(source@).push("lib"@).push("profile"@),
                build_tree(source@).push("bin"@).push("profile"@),
                build_tree(source@).push("Bin64"@).push("profile"@),
            ],
    {
        let build = Self::o3de_build_tree(source);
        let mut places: Vec<LocalPath> = Vec::new();
        places.push(build.join("lib").join("profile"));
        places.push(build.join("bin").join("profile"));
        places.push(build.join("Bin64").join("profile"));
        assert(path_views(places@) =~= seq![
            build_tree(source@).push("lib"@).push("profile"@),
            build_tree(source@).push("bin"@).push("profile"@),
            build_tree(source@).push("Bin64"@).push("profile"@),
        ]);
        places
    }

    /// Where the launcher records the version of the engine it has built.
    pub fn o3de_version_marker(&self) -> (res: LocalPath)
        ensures
            res@ == self.config().install_dir@.push("o3de_version.txt"@),
    {
        self.settings().install_dir.join("o3de_version.txt")
    }
}

} // verus!
