//! Finding the Tracy profiler among the places where it may have been put.

use vstd::prelude::*;

use crate::dependencies::{absent, found, DependencyManager, DependencyStatus, StatusView, TRACY};
use crate::paths::LocalPath;
use crate::text::{opt_str, str_eq};

verus! {

/// The name of the profiler's executable.
pub const TRACY_EXECUTABLE: &'static str = "Tracy.exe";

/// The folder whose presence marks a source tree of the profiler.
pub const TRACY_SOURCE_FOLDER: &'static str = "public";

/// One place where the profiler may lie, and what was found there.
#[derive(Debug, Clone)]
pub struct TracyCandidate {
    pub path: LocalPath,
    /// Whether the place is a file.
    pub is_file: bool,
    /// Whether the place exists.
    pub exists: bool,
    /// Whether the place holds an entry with the name of the executable.
    pub has_executable: bool,
    /// Whether the place holds an entry named `public`, as a source tree does.
    pub has_public: bool,
}

/// The directory that a candidate shows the profiler to lie in, if it shows
/// it at all: the directory of the executable, where the place is the
/// executable itself or holds it; the place, where it is a source tree.
pub open spec fn tracy_hit(candidate: TracyCandidate) -> Option<Seq<Seq<char>>> {
    let path = candidate.path@;
    if candidate.is_file && path.len() > 1 && path.last() == TRACY_EXECUTABLE@ {
        Some(path.drop_last())
    } else if candidate.has_executable {
        Some(path)
    } else if candidate.exists && candidate.has_public {
        Some(path)
    } else {
        None
    }
}

/// The directory shown by the first candidate, from `from` on, that shows one.
pub open spec fn tracy_search(candidates: Seq<TracyCandidate>, from: int) -> Option<Seq<Seq<char>>>
    decreases candidates.len() - from,
{
    if from < 0 || from >= candidates.len() {
        None
    } else {
        match tracy_hit(candidates[from]) {
            Some(directory) => Some(directory),
            None => tracy_search(candidates, from + 1),
        }
    }
}

/// The record of the profiler: found, under the configured version, in the
/// directory that the first successful candidate shows; else not installed.
pub open spec fn tracy_status(version: Seq<char>, candidates: Seq<TracyCandidate>) -> StatusView {
    match tracy_search(candidates, 0) {
        Some(directory) => found(TRACY@, Some(version), directory),
        None => absent(TRACY@),
    }
}

impl DependencyManager {
    /// The places where the profiler is looked for, in the order of
    /// preference: where a user puts it by hand, its executable there, the
    /// launcher's own place for it, and the per-user data directory.
    pub fn tracy_locations(&self, local_data_dir: Option<&str>) -> (res: Vec<LocalPath>)
        ensures
            res.len() == 4,
            res[0]@ == seq!["C:\\Tracy"@],
            res[1]@ == seq!["C:\\Tracy"@, TRACY_EXECUTABLE@],
            res[2]@ == self.config().install_dir@.push("deps"@).push(
                "tracy-"@ + self.config().tracy_version@,
            ),
            res[3]@ == seq![
                match opt_str(local_data_dir) {
                    Some(d) => d,
                    None => Seq::<char>::empty(),
                },
                "Tracy"@,
            ],
    {
        let mut places: Vec<LocalPath> = Vec::new();
        places.push(LocalPath::new("C:\\Tracy"));
        let executable = LocalPath::new("C:\\Tracy").join(TRACY_EXECUTABLE);
        assert(executable@ =~= seq!["C:\\Tracy"@, TRACY_EXECUTABLE@]);
        places.push(executable);
        places.push(self.settings().tracy_dir());
        let data_dir = match local_data_dir {
            Some(d) => LocalPath::new(d),
            None => LocalPath::new(""),
        };
        proof {
            reveal_strlit("");
            assert(""@ =~= Seq::<char>::empty());
        }
        let shared = data_dir.join("Tracy");
        assert(shared@ =~= seq![data_dir@[0], "Tracy"@]);
        places.push(shared);
        places
    }

    /// The directory that a candidate shows the profiler to lie in.
    pub fn tracy_directory(candidate: &TracyCandidate) -> (res: Option<LocalPath>)
        ensures
            crate::dependencies::opt_path(res) == tracy_hit(*candidate),
    {
        if candidate.is_file {
            match candidate.path.file_name() {
                Some(name) => {
                    if str_eq(name.as_str(), TRACY_EXECUTABLE) {
                        return candidate.path.parent();
                    }
                },
                None => {},
            }
        }
        if candidate.has_executable {
            Some(candidate.path.duplicate())
        } else if candidate.exists && candidate.has_public {
            Some(candidate.path.duplicate())
        } else {
            None
        }
    }

    /// `candidates` holds what was found at each of `tracy_locations`, in
    /// that order.
    pub fn check_tracy(&self, candidates: &Vec<TracyCandidate>) -> (res: DependencyStatus)
        ensures
            res@ == tracy_status(self.config().tracy_version@, candidates@),
    {
        let mut i: usize = 0;
        while i < candidates.len()
            invariant
                i <= candidates.len(),
                tracy_search(candidates@, 0) == tracy_search(candidates@, i as int),
            decreases candidates.len() - i,
        {
            match Self::tracy_directory(&candidates[i]) {
                Some(directory) => {
                    return Self::present(
                        TRACY,
                        Some(self.settings().tracy_version.clone()),
                        directory,
                    );
                },
                None => {},
            }
            i = i + 1;
        }
        Self::missing(TRACY)
    }
}

} // verus!
