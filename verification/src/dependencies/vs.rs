//! Finding Visual Studio through the query tool that its installer ships.

use vstd::prelude::*;

use crate::dependencies::{opt_installation, DependencyManager, VsInstallation};
use crate::json::{json_first_element, json_text_member, read_first_element, read_text_member};
use crate::paths::LocalPath;

verus! {

/// What the query tool's output says.
#[derive(Debug, Clone)]
pub enum VswhereReport {
    /// The output lists no installation.
    Nothing,
    /// The first installation listed does not say where it lies.
    Unusable,
    /// The first installation listed: where it lies and its version.
    Installation { path: String, version: String },
}

/// A report as plain values.
pub enum ReportView {
    Nothing,
    Unusable,
    Installation { path: Seq<char>, version: Seq<char> },
}

impl View for VswhereReport {
    type V = ReportView;

    open spec fn view(&self) -> ReportView {
        match self {
            VswhereReport::Nothing => ReportView::Nothing,
            VswhereReport::Unusable => ReportView::Unusable,
            VswhereReport::Installation { path, version } => ReportView::Installation {
                path: path@,
                version: version@,
            },
        }
    }
}

/// What a listed installation comes to, given its `installationPath` and
/// `installationVersion` members. An installation that names no version is
/// taken to be `2022`.
pub open spec fn report_of(path: Option<Seq<char>>, version: Option<Seq<char>>) -> ReportView {
    match path {
        None => ReportView::Unusable,
        Some(p) => ReportView::Installation {
            path: p,
            version: match version {
                Some(v) => v,
                None => "2022"@,
            },
        },
    }
}

/// What the query tool's output says: the first installation of the list it
/// holds, if it holds one.
pub open spec fn vswhere_report(output: Seq<char>) -> ReportView {
    match json_first_element(output) {
        Some(first) => report_of(
            json_text_member(first, "installationPath"@),
            json_text_member(first, "installationVersion"@),
        ),
        None => ReportView::Nothing,
    }
}

/// A directory below the toolsets directory, and whether it holds the compiler.
#[derive(Debug, Clone)]
pub struct ToolsetProbe {
    pub directory: LocalPath,
    pub has_compiler: bool,
}

/// What was found at one place where the query tool may lie.
#[derive(Debug, Clone)]
pub struct VswhereRun {
    /// Whether the query tool exists there.
    pub exists: bool,
    /// What it printed; `None` where it could not be run.
    pub output: Option<String>,
    /// Whether the installation it reported has a toolsets directory.
    pub has_toolsets: bool,
    /// The directories below the toolsets directory, in the order in which
    /// the file system lists them.
    pub toolsets: Vec<ToolsetProbe>,
}

/// The index of the first toolset that holds the compiler, from `from` on.
pub open spec fn first_compiler(toolsets: Seq<ToolsetProbe>, from: int) -> Option<int>
    decreases toolsets.len() - from,
{
    if from < 0 || from >= toolsets.len() {
        None
    } else if toolsets[from].has_compiler {
        Some(from)
    } else {
        first_compiler(toolsets, from + 1)
    }
}

/// Where the compiler lies in a toolset.
pub open spec fn compiler_in(toolset: Seq<Seq<char>>) -> Seq<Seq<char>> {
    toolset.push("bin"@).push("Hostx64"@).push("x64"@).push("cl.exe"@)
}

/// The installation that a reported installation path comes to: none where
/// it has no toolsets directory; else the compiler of the first toolset that
/// holds one; else the installation path itself.
pub open spec fn installation_found(
    path: Seq<char>,
    version: Seq<char>,
    has_toolsets: bool,
    toolsets: Seq<ToolsetProbe>,
) -> Option<(Seq<Seq<char>>, Seq<char>)> {
    if !has_toolsets {
        None
    } else {
        match first_compiler(toolsets, 0) {
            Some(i) => Some((compiler_in(toolsets[i].directory@), version)),
            None => Some((seq![path], version)),
        }
    }
}

/// The outcome of looking at the places from `from` on. The places are tried
/// in order. A place without the tool, a tool that lists nothing, and an
/// installation without toolsets are passed over; a tool that cannot be run
/// or an installation that does not say where it lies ends the search.
pub open spec fn vswhere_search(runs: Seq<VswhereRun>, from: int) -> Option<
    (Seq<Seq<char>>, Seq<char>),
>
    decreases runs.len() - from,
{
    if from < 0 || from >= runs.len() {
        None
    } else if !runs[from].exists {
        vswhere_search(runs, from + 1)
    } else if runs[from].output is None {
        None
    } else {
        match vswhere_report(runs[from].output->0@) {
            ReportView::Nothing => vswhere_search(runs, from + 1),
            ReportView::Unusable => None,
            ReportView::Installation { path, version } => if runs[from].has_toolsets {
                installation_found(path, version, true, runs[from].toolsets@)
            } else {
                vswhere_search(runs, from + 1)
            },
        }
    }
}

impl DependencyManager {
    /// The places where the installer puts its query tool, in the order in
    /// which they are tried.
    pub fn vswhere_locations() -> (res: Vec<LocalPath>)
        ensures
            res.len() == 2,
            res[0]@ == seq![
                "C:\\Program Files (x86)\\Microsoft Visual Studio\\Installer\\vswhere.exe"@,
            ],
            res[1]@ == seq!["C:\\Program Files\\Microsoft Visual Studio\\Installer\\vswhere.exe"@],
    {
        let mut places: Vec<LocalPath> = Vec::new();
        places.push(
            LocalPath::new(
                "C:\\Program Files (x86)\\Microsoft Visual Studio\\Installer\\vswhere.exe",
            ),
        );
        places.push(
            LocalPath::new("C:\\Program Files\\Microsoft Visual Studio\\Installer\\vswhere.exe"),
        );
        places
    }

    /// The arguments with which the query tool is asked for the latest
    /// installation that has the C++ tools.
    pub fn vswhere_arguments() -> (res: Vec<String>)
        ensures
            res.len() == 7,
            res[0]@ == "-latest"@,
            res[1]@ == "-products"@,
            res[2]@ == "*"@,
            res[3]@ == "-requires"@,
            res[4]@ == "Microsoft.VisualStudio.Component.VC.Tools.x86.x64"@,
            res[5]@ == "-format"@,
            res[6]@ == "json"@,
    {
        let mut args: Vec<String> = Vec::new();
        args.push("-latest".to_owned());
        args.push("-products".to_owned());
        args.push("*".to_owned());
        args.push("-requires".to_owned());
        args.push("Microsoft.VisualStudio.Component.VC.Tools.x86.x64".to_owned());
        args.push("-format".to_owned());
        args.push("json".to_owned());
        args
    }

    /// Reads the query tool's output.
    pub fn read_vswhere_output(output: &str) -> (res: VswhereReport)
        ensures
            res@ == vswhere_report(output@),
    {
        match read_first_element(output) {
            None => VswhereReport::Nothing,
            Some(first) => {
                let path = read_text_member(first.as_str(), "installationPath");
                let version = read_text_member(first.as_str(), "installationVersion");
                Self::report(path, version)
            },
        }
    }

    /// The report for a listed installation with the given members.
    pub fn report(path: Option<String>, version: Option<String>) -> (res: VswhereReport)
        ensures
            res@ == report_of(crate::text::opt_text(path), crate::text::opt_text(version)),
    {
        match path {
            None => VswhereReport::Unusable,
            Some(p) => VswhereReport::Installation {
                path: p,
                version: match version {
                    Some(v) => v,
                    None => "2022".to_owned(),
                },
            },
        }
    }

    /// Where the toolsets of an installation lie.
    pub fn toolsets_dir(installation: &str) -> (res: LocalPath)
        ensures
            res@ == seq![installation@, "VC"@, "Tools"@, "MSVC"@],
    {
        let res = LocalPath::new(installation).join("VC").join("Tools").join("MSVC");
        assert(res@ =~= seq![installation@, "VC"@, "Tools"@, "MSVC"@]);
        res
    }

    /// Where the compiler lies in a toolset.
    pub fn compiler_path(toolset: &LocalPath) -> (res: LocalPath)
        ensures
            res@ == compiler_in(toolset@),
    {
        toolset.join("bin").join("Hostx64").join("x64").join("cl.exe")
    }

    /// What a reported installation comes to, given what was found below it.
    pub fn locate_compiler(
        path: &str,
        version: &str,
        has_toolsets: bool,
        toolsets: &Vec<ToolsetProbe>,
    ) -> (res: Option<VsInstallation>)
        ensures
            opt_installation(res) == installation_found(path@, version@, has_toolsets, toolsets@),
    {
        if !has_toolsets {
            return None;
        }
        let mut i: usize = 0;
        while i < toolsets.len()
            invariant
                has_toolsets,
                i <= toolsets.len(),
                first_compiler(toolsets@, 0) == first_compiler(toolsets@, i as int),
            decreases toolsets.len() - i,
        {
            if toolsets[i].has_compiler {
                return Some(
                    VsInstallation {
                        path: Self::compiler_path(&toolsets[i].directory),
                        version: version.to_owned(),
                    },
                );
            }
            i = i + 1;
        }
        Some(VsInstallation { path: LocalPath::new(path), version: version.to_owned() })
    }

    /// Finds Visual Studio from what was found at each place where the query
    /// tool may lie, the places taken in order.
    pub fn find_vs_via_vswhere(runs: &Vec<VswhereRun>) -> (res: Option<VsInstallation>)
        ensures
            opt_installation(res) == vswhere_search(runs@, 0),
    {
        let mut i: usize = 0;
        while i < runs.len()
            invariant
                i <= runs.len(),
                vswhere_search(runs@, 0) == vswhere_search(runs@, i as int),
            decreases runs.len() - i,
        {
            let run = &runs[i];
            if run.exists {
                match &run.output {
                    None => {
                        return None;
                    },
                    Some(output) => match Self::read_vswhere_output(output.as_str()) {
                        VswhereReport::Nothing => {},
                        VswhereReport::Unusable => {
                            return None;
                        },
                        VswhereReport::Installation { path, version } => {
                            if run.has_toolsets {
                                return Self::locate_compiler(
                                    path.as_str(),
                                    version.as_str(),
                                    true,
                                    &run.toolsets,
                                );
                            }
                        },
                    },
                }
            }
            i = i + 1;
        }
        None
    }
}

} // verus!
