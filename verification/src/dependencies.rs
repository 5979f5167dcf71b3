//! The dependency auditor: the record of each required toolchain, and the
//! checks that turn what was observed of the machine into such records.
//!
//! Nothing here probes the machine. Each check takes what its probes found
//! and returns the record of the first strategy that found the dependency.

pub mod audit;
pub mod install_o3de;
pub mod installers;
pub mod o3de;
pub mod o3de_commands;
pub mod o3de_layout;
pub mod probes;
pub mod tracy;
pub mod vs;
pub mod vulkan;

use vstd::prelude::*;

use crate::config::Config;
use crate::paths::LocalPath;
use crate::text::{first_line, first_line_of, opt_text, trim_text, trimmed};

verus! {

/// What an audit found of one dependency.
#[derive(Debug, Clone)]
pub struct DependencyStatus {
    pub name: String,
    pub installed: bool,
    pub version: Option<String>,
    pub path: Option<LocalPath>,
}

/// A dependency record as plain values.
pub struct StatusView {
    pub name: Seq<char>,
    pub installed: bool,
    pub version: Option<Seq<char>>,
    pub path: Option<Seq<Seq<char>>>,
}

/// The view of an optional location.
pub open spec fn opt_path(path: Option<LocalPath>) -> Option<Seq<Seq<char>>> {
    match path {
        Some(p) => Some(p@),
        None => None,
    }
}

impl View for DependencyStatus {
    type V = StatusView;

    open spec fn view(&self) -> StatusView {
        StatusView {
            name: self.name@,
            installed: self.installed,
            version: opt_text(self.version),
            path: opt_path(self.path),
        }
    }
}

/// The record of a dependency that was found.
pub open spec fn found(
    name: Seq<char>,
    version: Option<Seq<char>>,
    path: Seq<Seq<char>>,
) -> StatusView {
    StatusView { name, installed: true, version, path: Some(path) }
}

/// The record of a dependency that was not found.
pub open spec fn absent(name: Seq<char>) -> StatusView {
    StatusView { name, installed: false, version: None, path: None }
}

/// What was found of a command-line tool: where it lies on the search path,
/// if it does, and what it printed when asked for its version, if it ran.
#[derive(Debug, Clone)]
pub struct ToolProbe {
    pub path: Option<LocalPath>,
    pub output: Option<String>,
}

/// A Visual Studio installation with the C++ tools: where its compiler (or,
/// failing that, the installation) lies, and its version.
#[derive(Debug, Clone)]
pub struct VsInstallation {
    pub path: LocalPath,
    pub version: String,
}

/// The name of the record of the Visual Studio build tools.
pub const VS_BUILD_TOOLS: &'static str = "Visual Studio Build Tools";

/// The name of the record of the Rust toolchain.
pub const RUST: &'static str = "Rust";

/// The name of the record of the Vulkan SDK.
pub const VULKAN_SDK: &'static str = "Vulkan SDK";

/// The name of the record of the profiler.
pub const TRACY: &'static str = "Tracy Profiler";

/// The name of the record of the engine SDK.
pub const O3DE: &'static str = "O3DE SDK";

/// The name of the record of CMake.
pub const CMAKE: &'static str = "CMake";

/// The first line of an optional text.
pub open spec fn opt_first_line(text: Option<Seq<char>>) -> Option<Seq<char>> {
    match text {
        Some(t) => first_line_of(t),
        None => None,
    }
}

/// An optional text without surrounding whitespace.
pub open spec fn opt_trimmed(text: Option<Seq<char>>) -> Option<Seq<char>> {
    match text {
        Some(t) => Some(trimmed(t)),
        None => None,
    }
}

/// The record of the Rust toolchain: installed where the compiler lies on
/// the search path, with the trimmed text it printed as its version.
pub open spec fn rust_status(
    path: Option<Seq<Seq<char>>>,
    output: Option<Seq<char>>,
) -> StatusView {
    match path {
        Some(p) => found(RUST@, opt_trimmed(output), p),
        None => absent(RUST@),
    }
}

/// The record of CMake: installed where it lies on the search path, with the
/// first line it printed as its version.
pub open spec fn cmake_status(
    path: Option<Seq<Seq<char>>>,
    output: Option<Seq<char>>,
) -> StatusView {
    match path {
        Some(p) => found(CMAKE@, opt_first_line(output), p),
        None => absent(CMAKE@),
    }
}

/// The record of the Visual Studio build tools: the installation that the
/// installer's own query reported, where it reported one; else the compiler
/// on the search path, with the first line it printed as its version; else
/// not installed.
pub open spec fn vs_status(
    reported: Option<(Seq<Seq<char>>, Seq<char>)>,
    compiler: Option<Seq<Seq<char>>>,
    compiler_output: Option<Seq<char>>,
) -> StatusView {
    match reported {
        Some((path, version)) => found(VS_BUILD_TOOLS@, Some(version), path),
        None => match compiler {
            Some(p) => found(VS_BUILD_TOOLS@, opt_first_line(compiler_output), p),
            None => absent(VS_BUILD_TOOLS@),
        },
    }
}

/// The location and version of an optional installation.
pub open spec fn opt_installation(
    vs: Option<VsInstallation>,
) -> Option<(Seq<Seq<char>>, Seq<char>)> {
    match vs {
        Some(i) => Some((i.path@, i.version@)),
        None => None,
    }
}

/// The auditor of the dependencies of one installation.
pub struct DependencyManager {
    config: Config,
}

impl DependencyManager {
    /// The configuration that the audit goes by.
    pub closed spec fn config(&self) -> Config {
        self.config
    }

    /// An auditor for the installation that `config` describes.
    pub fn new(config: Config) -> (res: DependencyManager)
        ensures
            res.config() == config,
    {
        DependencyManager { config }
    }

    /// The configuration that the audit goes by.
    pub fn settings(&self) -> (res: &Config)
        ensures
            *res == self.config(),
    {
        &self.config
    }

    pub(crate) fn missing(name: &str) -> (res: DependencyStatus)
        ensures
            res@ == absent(name@),
    {
        DependencyStatus { name: name.to_owned(), installed: false, version: None, path: None }
    }

    pub(crate) fn present(name: &str, version: Option<String>, path: LocalPath) -> (res:
        DependencyStatus)
        ensures
            res@ == found(name@, opt_text(version), path@),
    {
        DependencyStatus { name: name.to_owned(), installed: true, version, path: Some(path) }
    }

    /// The record of the Visual Studio build tools. `reported` is what
    /// `find_vs_via_vswhere` found; `compiler` is the C++ compiler on the
    /// search path, asked without arguments.
    pub fn check_vs_build_tools(
        &self,
        reported: &Option<VsInstallation>,
        compiler: &ToolProbe,
    ) -> (res:
        DependencyStatus)
        ensures
            res@ == vs_status(
                opt_installation(*reported),
                opt_path(compiler.path),
                opt_text(compiler.output),
            ),
    {
        match reported {
            Some(vs) => Self::present(VS_BUILD_TOOLS, Some(vs.version.clone()), vs.path.duplicate()),
            None => match &compiler.path {
                Some(p) => {
                    let version = match &compiler.output {
                        Some(text) => first_line(text.as_str()),
                        None => None,
                    };
                    Self::present(VS_BUILD_TOOLS, version, p.duplicate())
                },
                None => Self::missing(VS_BUILD_TOOLS),
            },
        }
    }

    /// The record of the Rust toolchain. `compiler` is the Rust compiler on
    /// the search path, asked for its version.
    pub fn check_rust(&self, compiler: &ToolProbe) -> (res: DependencyStatus)
        ensures
            res@ == rust_status(opt_path(compiler.path), opt_text(compiler.output)),
    {
        match &compiler.path {
            Some(p) => {
                let version = match &compiler.output {
                    Some(text) => Some(trim_text(text.as_str())),
                    None => None,
                };
                Self::present(RUST, version, p.duplicate())
            },
            None => Self::missing(RUST),
        }
    }

    /// The record of CMake. `tool` is CMake on the search path, asked for its
    /// version.
    pub fn check_cmake(&self, tool: &ToolProbe) -> (res: DependencyStatus)
        ensures
            res@ == cmake_status(opt_path(tool.path), opt_text(tool.output)),
    {
        match &tool.path {
            Some(p) => {
                let version = match &tool.output {
                    Some(text) => first_line(text.as_str()),
                    None => None,
                };
                Self::present(CMAKE, version, p.duplicate())
            },
            None => Self::missing(CMAKE),
        }
    }
}

} // verus!
