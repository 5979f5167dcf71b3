//! Where an O3DE engine and its built libraries are looked for.

use vstd::prelude::*;

use crate::dependencies::DependencyManager;
use crate::dependencies::o3de::O3deLocation;
use crate::paths::{path_views, LocalPath};

verus! {

/// The directory in which a user keeps a build of the engine.
pub const O3DE_BUILD_ROOT: &'static str = "C:\\O3DE-Build";

/// The library whose presence shows that the engine is built.
pub const CORE_LIBRARY: &'static str = "AzCore.lib";

/// The places where the engine is looked for, in the order of preference: a
/// user's own source and build, the standard places for known versions, the
/// standard root, whose directories are looked at one by one, the game's
/// folder, the program folders, and last the launcher's own place for it.
pub open spec fn engine_locations(managed: Seq<Seq<char>>) -> Seq<(Seq<Seq<char>>, bool)> {
    seq![
        (seq!["C:\\O3DE-Source"@], false),
        (seq![O3DE_BUILD_ROOT@], false),
        (seq!["C:\\O3DE\\25.10.1"@], false),
        (seq!["C:\\O3DE\\2510.1"@], false),
        (seq!["C:\\O3DE\\25.05.0"@], false),
        (seq!["C:\\O3DE\\24.09.0"@], false),
        (seq!["C:\\O3DE"@], true),
        (seq!["C:\\Games\\AAA-MMORPG"@], false),
        (seq!["C:\\Program Files\\O3DE"@], false),
        (seq!["C:\\Program Files (x86)\\O3DE"@], false),
        (managed, false),
    ]
}

/// The places where the core library of an engine in `directory` may lie: in
/// the user's own build, whatever the directory, and in the directory's
/// install and build trees.
pub open spec fn library_paths(directory: Seq<Seq<char>>) -> Seq<Seq<Seq<char>>> {
    seq![
        seq![O3DE_BUILD_ROOT@, "lib"@, "release"@, CORE_LIBRARY@],
        seq![O3DE_BUILD_ROOT@, "lib"@, "Release"@, CORE_LIBRARY@],
        seq![O3DE_BUILD_ROOT@, "lib"@, "profile"@, CORE_LIBRARY@],
        seq![O3DE_BUILD_ROOT@, "lib"@, "Profile"@, CORE_LIBRARY@],
        directory + seq!["install"@, "lib"@, "profile"@, CORE_LIBRARY@],
        directory + seq!["install"@, "lib"@, "release"@, CORE_LIBRARY@],
        directory + seq!["build"@, "windows"@, "lib"@, "profile"@, CORE_LIBRARY@],
        directory + seq!["build"@, "windows"@, "lib"@, "release"@, CORE_LIBRARY@],
        directory + seq!["build"@, "lib"@, "profile"@, CORE_LIBRARY@],
        directory + seq!["lib"@, "profile"@, CORE_LIBRARY@],
        directory + seq!["lib"@, "release"@, CORE_LIBRARY@],
    ]
}

/// The places and their flags as plain values.
pub open spec fn location_views(items: Seq<O3deLocation>) -> Seq<(Seq<Seq<char>>, bool)> {
    Seq::new(items.len(), |i: int| (items[i].path@, items[i].scan_children))
}

fn fixed(place: &str) -> (res: O3deLocation)
    ensures
        res.path@ == seq![place@],
        !res.scan_children,
{
    O3deLocation { path: LocalPath::new(place), scan_children: false }
}

fn library_in(directory: &LocalPath, configuration: &str) -> (res: LocalPath)
    ensures
        res@ == directory@ + seq!["lib"@, configuration@, CORE_LIBRARY@],
{
    let res = directory.join("lib").join(configuration).join(CORE_LIBRARY);
    assert(res@ =~= directory@ + seq!["lib"@, configuration@, CORE_LIBRARY@]);
    res
}

impl DependencyManager {
    /// The places where the engine is looked for, in the order of preference.
    pub fn o3de_locations(&self) -> (res: Vec<O3deLocation>)
        ensures
            location_views(res@) == engine_locations(self.config().install_dir@.push("o3de"@)),
    {
        let mut places: Vec<O3deLocation> = Vec::new();
        places.push(fixed("C:\\O3DE-Source"));
        places.push(fixed(O3DE_BUILD_ROOT));
        places.push(fixed("C:\\O3DE\\25.10.1"));
        places.push(fixed("C:\\O3DE\\2510.1"));
        places.push(fixed("C:\\O3DE\\25.05.0"));
        places.push(fixed("C:\\O3DE\\24.09.0"));
        places.push(O3deLocation { path: LocalPath::new("C:\\O3DE"), scan_children: true });
        places.push(fixed("C:\\Games\\AAA-MMORPG"));
        places.push(fixed("C:\\Program Files\\O3DE"));
        places.push(fixed("C:\\Program Files (x86)\\O3DE"));
        places.push(O3deLocation { path: self.settings().o3de_dir(), scan_children: false });
        assert(location_views(places@) =~= engine_locations(
            self.config().install_dir@.push("o3de"@),
        ));
        places
    }

    /// The places where the core library of an engine in `directory` may lie.
    pub fn o3de_library_paths(directory: &LocalPath) -> (res: Vec<LocalPath>)
        ensures
            path_views(res@) == library_paths(directory@),
    {
        let user_build = LocalPath::new(O3DE_BUILD_ROOT);
        let install = directory.join("install");
        let build = directory.join("build");
        let windows = build.join("windows");
        let mut places: Vec<LocalPath> = Vec::new();
        places.push(library_in(&user_build, "release"));
        places.push(library_in(&user_build, "Release"));
        places.push(library_in(&user_build, "profile"));
        places.push(library_in(&user_build, "Profile"));
        places.push(library_in(&install, "profile"));
        places.push(library_in(&install, "release"));
        places.push(library_in(&windows, "profile"));
        places.push(library_in(&windows, "release"));
        places.push(library_in(&build, "profile"));
        places.push(library_in(directory, "profile"));
        places.push(library_in(directory, "release"));
        proof {
            let expected = library_paths(directory@);
            assert(places@.len() == expected.len());
            assert(places[0]@ =~= expected[0]);
            assert(places[1]@ =~= expected[1]);
            assert(places[2]@ =~= expected[2]);
            assert(places[3]@ =~= expected[3]);
            assert(places[4]@ =~= expected[4]);
            assert(places[5]@ =~= expected[5]);
            assert(places[6]@ =~= expected[6]);
            assert(places[7]@ =~= expected[7]);
            assert(places[8]@ =~= expected[8]);
            assert(places[9]@ =~= expected[9]);
            assert(places[10]@ =~= expected[10]);
            assert(path_views(places@) =~= expected);
        }
        places
    }
}

} // verus!
