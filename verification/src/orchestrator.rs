//! The build cache gate and the commands that build and launch the managed
//! application.

pub mod commands;

use vstd::prelude::*;

use crate::config::Config;
use crate::paths::LocalPath;
use crate::text::{opt_text, str_eq, trim_text, trimmed};

verus! {

/// What the disk holds of the last successful build.
#[derive(Debug, Clone)]
pub struct BuildCache {
    /// Whether the marker of a completed build exists.
    pub marker_present: bool,
    /// The text of the cached version marker, `None` where there is none.
    pub cached_version: Option<String>,
    /// The text of the version marker of the current source, `None` where
    /// the source has none.
    pub source_version: Option<String>,
}

/// A file to write, with the text it is to hold.
#[derive(Debug, Clone)]
pub struct FileWrite {
    pub path: LocalPath,
    pub content: String,
}

/// Why the build or the launch of the managed application was given up.
#[derive(Debug, Clone, Copy, PartialEq, Eq, Structural)]
pub enum BuildError {
    /// The build script is missing from the engine tree.
    ScriptNotFound,
    /// The build ended with a failure; its exit code, where it gave one.
    BuildFailed(Option<i32>),
    /// The managed application's executable is missing.
    GameNotFound,
    /// Neither form of the validation test executable exists.
    ValidationTestNotFound,
}

/// The version of the current source: what its version marker holds, or
/// `unknown` where it has none.
pub open spec fn source_version_text(marker: Option<Seq<char>>) -> Seq<char> {
    match marker {
        Some(text) => text,
        None => "unknown"@,
    }
}

/// The rebuild decision: a rebuild is due where it is forced, where no build
/// was completed, where no version was cached, or where the cached version
/// differs from the source's, both taken without surrounding whitespace.
pub open spec fn rebuild_due(
    force: bool,
    marker_present: bool,
    cached: Option<Seq<char>>,
    source: Option<Seq<char>>,
) -> bool {
    ||| force
    ||| !marker_present
    ||| cached is None
    ||| trimmed(cached->0) != trimmed(source_version_text(source))
}

/// The build cache gate and the builder of the managed application of one
/// installation.
pub struct BuildOrchestrator {
    config: Config,
}

impl BuildOrchestrator {
    /// The configuration that the builds go by.
    pub closed spec fn config(&self) -> Config {
        self.config
    }

    /// The engine tree of the configured installation.
    pub open spec fn engine(&self) -> Seq<Seq<char>> {
        self.config().install_dir@.push("engine"@)
    }

    /// An orchestrator for the installation that `config` describes.
    pub fn new(config: Config) -> (res: BuildOrchestrator)
        ensures
            res.config() == config,
    {
        BuildOrchestrator { config }
    }

    /// The configuration that the builds go by.
    pub fn settings(&self) -> (res: &Config)
        ensures
            *res == self.config(),
    {
        &self.config
    }

    /// Where the marker of a completed build lies.
    pub fn build_marker(&self) -> (res: LocalPath)
        ensures
            res@ == self.engine().push("target"@).push("release"@).push(".build_complete"@),
    {
        self.config.engine_dir().join("target").join("release").join(".build_complete")
    }

    /// Where the cached version marker lies.
    pub fn build_version_file(&self) -> (res: LocalPath)
        ensures
            res@ == self.engine().push(".build_version"@),
    {
        self.config.engine_dir().join(".build_version")
    }

    /// Where the version marker of the source lies.
    pub fn source_version_file(&self) -> (res: LocalPath)
        ensures
            res@ == self.engine().push("VERSION"@),
    {
        self.config.engine_dir().join("VERSION")
    }

    /// Whether a completed build is on record.
    pub fn check_build_cache(&self, cache: &BuildCache) -> (res: bool)
        ensures
            res == cache.marker_present,
    {
        cache.marker_present
    }

    /// The version of the current source.
    pub fn get_source_version(source_version: &Option<String>) -> (res: String)
        ensures
            res@ == source_version_text(opt_text(*source_version)),
    {
        match source_version {
            Some(text) => text.clone(),
            None => "unknown".to_owned(),
        }
    }

    /// Whether the managed application has to be rebuilt.
    pub fn needs_rebuild(&self, cache: &BuildCache) -> (res: bool)
        ensures
            res == rebuild_due(
                self.config().force_rebuild,
                cache.marker_present,
                opt_text(cache.cached_version),
                opt_text(cache.source_version),
            ),
    {
        if self.config.force_rebuild {
            return true;
        }
        if !self.check_build_cache(cache) {
            return true;
        }
        match &cache.cached_version {
            None => true,
            Some(cached) => {
                let current = Self::get_source_version(&cache.source_version);
                let cached_trimmed = trim_text(cached.as_str());
                let current_trimmed = trim_text(current.as_str());
                !str_eq(cached_trimmed.as_str(), current_trimmed.as_str())
            },
        }
    }

    /// The files that record a successful build, in the order in which they
    /// are to be written: the cached version marker with the version of the
    /// source, then the marker of a completed build. To be written only once
    /// a build has succeeded.
    pub fn save_build_version(&self, source_version: &Option<String>) -> (res: Vec<FileWrite>)
        ensures
            res.len() == 2,
            res[0].path@ == self.engine().push(".build_version"@),
            res[0].content@ == source_version_text(opt_text(*source_version)),
            res[1].path@ == self.engine().push("target"@).push("release"@).push(
                ".build_complete"@,
            ),
            res[1].content@ == "complete"@,
    {
        let mut writes: Vec<FileWrite> = Vec::new();
        writes.push(
            FileWrite {
                path: self.build_version_file(),
                content: Self::get_source_version(source_version),
            },
        );
        writes.push(FileWrite { path: self.build_marker(), content: "complete".to_owned() });
        writes
    }
}

/// Once the files of `save_build_version` are on disk and the source is
/// unchanged, no rebuild is due unless it is forced.
pub proof fn lemma_saved_build_is_cached(source: Option<Seq<char>>)
    ensures
        !rebuild_due(false, true, Some(source_version_text(source)), source),
{
}

/// Without a completed build, or without a cached version, a rebuild is
/// always due.
pub proof fn lemma_missing_marker_forces_rebuild(
    force: bool,
    marker_present: bool,
    cached: Option<Seq<char>>,
    source: Option<Seq<char>>,
)
    requires
        force || !marker_present || cached is None,
    ensures
        rebuild_due(force, marker_present, cached, source),
{
}

} // verus!
