//! Finding a built O3DE engine among the places where its source may lie.
//!
//! Only an engine whose libraries are built counts as installed: a source
//! tree without them is reported like no engine at all, so that it gets
//! built.

use vstd::prelude::*;

use crate::dependencies::{found, DependencyManager, DependencyStatus, StatusView, O3DE};
use crate::json::{json_text_member, read_text_member};
use crate::paths::LocalPath;
use crate::text::{opt_text, trim_text, trimmed};

verus! {

/// A place where the engine is looked for.
#[derive(Debug, Clone)]
pub struct O3deLocation {
    pub path: LocalPath,
    /// Whether the directories inside the place are looked at in its stead.
    pub scan_children: bool,
}

/// What `git describe` said in a directory.
#[derive(Debug, Clone)]
pub struct GitDescribe {
    pub success: bool,
    pub output: String,
}

/// One directory that may hold the engine, and what was found of it.
#[derive(Debug, Clone)]
pub struct O3deCandidate {
    pub path: LocalPath,
    pub has_engine_json: bool,
    pub has_cmake_lists: bool,
    pub has_scripts: bool,
    pub has_cmake: bool,
    /// For each of `o3de_library_paths`, in that order, whether it exists.
    pub libraries: Vec<bool>,
    /// The text of the launcher's own version marker, `None` where there is none.
    pub version_marker: Option<String>,
    /// The text of the directory's `engine.json`, `None` where there is none.
    pub engine_json: Option<String>,
    /// What `git describe --tags --always` said there, `None` where it could
    /// not be run.
    pub git_describe: Option<GitDescribe>,
}

/// Whether the directory holds what marks a source tree of the engine.
pub open spec fn is_source_tree(candidate: O3deCandidate) -> bool {
    candidate.has_cmake_lists || candidate.has_engine_json || (candidate.has_scripts
        && candidate.has_cmake)
}

/// Whether one of the engine's core libraries was found built.
pub open spec fn has_built_libraries(libraries: Seq<bool>) -> bool {
    exists|i: int| 0 <= i < libraries.len() && #[trigger] libraries[i]
}

/// The version that `git describe` gives: its trimmed output, where it
/// succeeded and said anything.
pub open spec fn described_version(git: Option<GitDescribe>) -> Option<Seq<char>> {
    match git {
        Some(g) => if g.success && trimmed(g.output@).len() > 0 {
            Some(trimmed(g.output@))
        } else {
            None
        },
        None => None,
    }
}

/// The version of an engine: the launcher's own marker, where it says
/// anything; else what `engine.json` gives as `version`, else as
/// `O3DEVersion`; else what `git describe` gives.
pub open spec fn engine_version(
    marker: Option<Seq<char>>,
    engine_json: Option<Seq<char>>,
    git: Option<GitDescribe>,
) -> Option<Seq<char>> {
    if marker is Some && trimmed(marker->0).len() > 0 {
        Some(trimmed(marker->0))
    } else if engine_json is Some && json_text_member(engine_json->0, "version"@) is Some {
        json_text_member(engine_json->0, "version"@)
    } else if engine_json is Some && json_text_member(engine_json->0, "O3DEVersion"@) is Some {
        json_text_member(engine_json->0, "O3DEVersion"@)
    } else {
        described_version(git)
    }
}

/// The record that a directory gives rise to: none unless its libraries are
/// built; else installed there, under its version, or as `built` where no
/// version can be told.
pub open spec fn engine_found(candidate: O3deCandidate) -> Option<StatusView> {
    if has_built_libraries(candidate.libraries@) {
        Some(
            found(
                O3DE@,
                Some(
                    match engine_version(
                        opt_text(candidate.version_marker),
                        opt_text(candidate.engine_json),
                        candidate.git_describe,
                    ) {
                        Some(v) => v,
                        None => "built"@,
                    },
                ),
                candidate.path@,
            ),
        )
    } else {
        None
    }
}

/// The record of the first directory, from `from` on, that gives rise to one.
pub open spec fn engine_search(candidates: Seq<O3deCandidate>, from: int) -> Option<StatusView>
    decreases candidates.len() - from,
{
    if from < 0 || from >= candidates.len() {
        None
    } else {
        match engine_found(candidates[from]) {
            Some(status) => Some(status),
            None => engine_search(candidates, from + 1),
        }
    }
}

/// The record of the engine: that of the first directory with built
/// libraries; else not installed, with the launcher's own place for it as
/// the place where it is to be put.
pub open spec fn engine_status(
    managed: Seq<Seq<char>>,
    candidates: Seq<O3deCandidate>,
) -> StatusView {
    match engine_search(candidates, 0) {
        Some(status) => status,
        None => StatusView { name: O3DE@, installed: false, version: None, path: Some(managed) },
    }
}

/// The view of an optional record.
pub open spec fn opt_status(status: Option<DependencyStatus>) -> Option<StatusView> {
    match status {
        Some(s) => Some(s@),
        None => None,
    }
}

impl DependencyManager {
    /// Whether any of the libraries was found.
    pub fn any_library(libraries: &Vec<bool>) -> (res: bool)
        ensures
            res == has_built_libraries(libraries@),
    {
        let mut i: usize = 0;
        while i < libraries.len()
            invariant
                i <= libraries.len(),
                forall|k: int| 0 <= k < i ==> !libraries[k],
            decreases libraries.len() - i,
        {
            if libraries[i] {
                return true;
            }
            i = i + 1;
        }
        false
    }

    /// Whether a directory holds what marks a source tree of the engine.
    pub fn looks_like_source(candidate: &O3deCandidate) -> (res: bool)
        ensures
            res == is_source_tree(*candidate),
    {
        candidate.has_cmake_lists || candidate.has_engine_json || (candidate.has_scripts
            && candidate.has_cmake)
    }

    /// The version of the engine in a directory.
    pub fn get_o3de_installed_version(
        version_marker: &Option<String>,
        engine_json: &Option<String>,
        git_describe: &Option<GitDescribe>,
    ) -> (res: Option<String>)
        ensures
            opt_text(res) == engine_version(
                opt_text(*version_marker),
                opt_text(*engine_json),
                *git_describe,
            ),
    {
        match version_marker {
            Some(text) => {
                let version = trim_text(text.as_str());
                if !version.as_str().is_empty() {
                    return Some(version);
                }
            },
            None => {},
        }
        match engine_json {
            Some(content) => {
                match read_text_member(content.as_str(), "version") {
                    Some(version) => {
                        return Some(version);
                    },
                    None => {},
                }
                match read_text_member(content.as_str(), "O3DEVersion") {
                    Some(version) => {
                        return Some(version);
                    },
                    None => {},
                }
            },
            None => {},
        }
        match git_describe {
            Some(git) => {
                if git.success {
                    let version = trim_text(git.output.as_str());
                    if !version.as_str().is_empty() {
                        return Some(version);
                    }
                }
                None
            },
            None => None,
        }
    }

    /// The record that a directory gives rise to, if its libraries are built.
    pub fn validate_o3de_installation(&self, candidate: &O3deCandidate) -> (res: Option<
        DependencyStatus,
    >)
        ensures
            opt_status(res) == engine_found(*candidate),
    {
        if !Self::any_library(&candidate.libraries) {
            return None;
        }
        let version = match Self::get_o3de_installed_version(
            &candidate.version_marker,
            &candidate.engine_json,
            &candidate.git_describe,
        ) {
            Some(v) => v,
            None => "built".to_owned(),
        };
        Some(Self::present(O3DE, Some(version), candidate.path.duplicate()))
    }

    /// `candidates` holds what was found of each directory to look at, in
    /// the order of `o3de_locations`, each place that is scanned replaced by
    /// the directories inside it.
    pub fn check_o3de(&self, candidates: &Vec<O3deCandidate>) -> (res: DependencyStatus)
        ensures
            res@ == engine_status(self.config().install_dir@.push("o3de"@), candidates@),
    {
        let mut i: usize = 0;
        while i < candidates.len()
            invariant
                i <= candidates.len(),
                engine_search(candidates@, 0) == engine_search(candidates@, i as int),
            decreases candidates.len() - i,
        {
            match self.validate_o3de_installation(&candidates[i]) {
                Some(status) => {
                    return status;
                },
                None => {},
            }
            i = i + 1;
        }
        DependencyStatus {
            name: O3DE.to_owned(),
            installed: false,
            version: None,
            path: Some(self.settings().o3de_dir()),
        }
    }
}

/// Every record that the search yields is a record of the engine.
pub proof fn lemma_search_keeps_name(candidates: Seq<O3deCandidate>, from: int)
    ensures
        engine_search(candidates, from) matches Some(status) ==> status.name == O3DE@
            && status.installed,
    decreases candidates.len() - from,
{
    if 0 <= from < candidates.len() {
        lemma_search_keeps_name(candidates, from + 1);
    }
}

} // verus!
