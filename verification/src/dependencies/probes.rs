//! What has to be looked at on the machine for an audit: the names under
//! which tools are searched, the questions they are asked, and the entries
//! whose presence is probed.

use vstd::prelude::*;

use crate::commands::{arg_views, env_views, text, Arg, ArgView, CommandSpec, CommandView};
use crate::dependencies::DependencyManager;
use crate::dependencies::tracy::{TRACY_EXECUTABLE, TRACY_SOURCE_FOLDER};
use crate::dependencies::install_o3de::SOURCE_MARKER;
use crate::paths::{path_views, text_views, LocalPath};

verus! {

/// A command-line tool that an audit looks for.
#[derive(Debug, Clone, Copy, PartialEq, Eq, Structural)]
pub enum Tool {
    /// The C++ compiler of the build tools.
    Compiler,
    /// The Rust compiler.
    Rustc,
    CMake,
}

/// The names under which a tool is searched on the search path, in order.
pub open spec fn search_names(tool: Tool) -> Seq<Seq<char>> {
    match tool {
        Tool::Compiler => seq!["cl.exe"@],
        Tool::Rustc => seq!["rustc.exe"@, "rustc"@],
        Tool::CMake => seq!["cmake.exe"@, "cmake"@],
    }
}

/// The command that asks a tool for its version. The compiler is run
/// without arguments and answers on its error stream; the others answer on
/// their output stream.
pub open spec fn version_question(tool: Tool) -> CommandView {
    match tool {
        Tool::Compiler => CommandView {
            program: ArgView::Text("cl.exe"@),
            args: Seq::empty(),
            env: Seq::empty(),
            dir: None,
        },
        Tool::Rustc => CommandView {
            program: ArgView::Text("rustc"@),
            args: seq![ArgView::Text("--version"@)],
            env: Seq::empty(),
            dir: None,
        },
        Tool::CMake => CommandView {
            program: ArgView::Text("cmake"@),
            args: seq![ArgView::Text("--version"@)],
            env: Seq::empty(),
            dir: None,
        },
    }
}

/// The command that asks git to describe the source in a directory.
pub open spec fn describe_command(directory: Seq<Seq<char>>) -> CommandView {
    CommandView {
        program: ArgView::Text("git"@),
        args: seq![
            ArgView::Text("describe"@),
            ArgView::Text("--tags"@),
            ArgView::Text("--always"@),
        ],
        env: Seq::empty(),
        dir: Some(directory),
    }
}

impl DependencyManager {
    /// The names under which a tool is searched on the search path, in order.
    pub fn tool_names(tool: Tool) -> (res: Vec<String>)
        ensures
            text_views(res@) == search_names(tool),
    {
        let mut names: Vec<String> = Vec::new();
        match tool {
            Tool::Compiler => {
                names.push("cl.exe".to_owned());
            },
            Tool::Rustc => {
                names.push("rustc.exe".to_owned());
                names.push("rustc".to_owned());
            },
            Tool::CMake => {
                names.push("cmake.exe".to_owned());
                names.push("cmake".to_owned());
            },
        }
        assert(text_views(names@) =~= search_names(tool));
        names
    }

    /// Whether a tool answers the question for its version on its error stream.
    pub fn answers_on_error_stream(tool: Tool) -> (res: bool)
        ensures
            res == (tool == Tool::Compiler),
    {
        match tool {
            Tool::Compiler => true,
            _ => false,
        }
    }

    /// The command that asks a tool for its version.
    pub fn version_query(tool: Tool) -> (res: CommandSpec)
        ensures
            res@ == version_question(tool),
    {
        let mut args: Vec<Arg> = Vec::new();
        let program = match tool {
            Tool::Compiler => text("cl.exe"),
            Tool::Rustc => {
                args.push(text("--version"));
                text("rustc")
            },
            Tool::CMake => {
                args.push(text("--version"));
                text("cmake")
            },
        };
        let command = CommandSpec { program, args, env: Vec::new(), dir: None };
        assert(arg_views(command.args@) =~= version_question(tool).args);
        assert(env_views(command.env@) =~= Seq::empty());
        command
    }

    /// The two entries of a place whose presence shows the profiler: its
    /// executable, and the folder that marks its source.
    pub fn tracy_probe_paths(place: &LocalPath) -> (res: (LocalPath, LocalPath))
        ensures
            res.0@ == place@.push(TRACY_EXECUTABLE@),
            res.1@ == place@.push(TRACY_SOURCE_FOLDER@),
    {
        (place.join(TRACY_EXECUTABLE), place.join(TRACY_SOURCE_FOLDER))
    }

    /// The four entries of a directory that mark a source tree of the
    /// engine, in the order of the candidate's fields: `engine.json`, the
    /// source marker, and the folders `scripts` and `cmake`.
    pub fn o3de_probe_paths(directory: &LocalPath) -> (res: Vec<LocalPath>)
        ensures
            path_views(res@) == seq![
                directory@.push("engine.json"@),
                directory@.push(SOURCE_MARKER@),
                directory@.push("scripts"@),
                directory@.push("cmake"@),
            ],
    {
        let mut places: Vec<LocalPath> = Vec::new();
        places.push(directory.join("engine.json"));
        places.push(directory.join(SOURCE_MARKER));
        places.push(directory.join("scripts"));
        places.push(directory.join("cmake"));
        assert(path_views(places@) =~= seq![
            directory@.push("engine.json"@),
            directory@.push(SOURCE_MARKER@),
            directory@.push("scripts"@),
            directory@.push("cmake"@),
        ]);
        places
    }

    /// The command that asks git to describe the source in a directory.
    pub fn git_describe_command(directory: &LocalPath) -> (res: CommandSpec)
        ensures
            res@ == describe_command(directory@),
    {
        let mut args: Vec<Arg> = Vec::new();
        args.push(text("describe"));
        args.push(text("--tags"));
        args.push(text("--always"));
        let command = CommandSpec {
            program: text("git"),
            args,
            env: Vec::new(),
            dir: Some(directory.duplicate()),
        };
        assert(arg_views(command.args@) =~= describe_command(directory@).args);
        assert(env_views(command.env@) =~= Seq::empty());
        command
    }
}

} // verus!
