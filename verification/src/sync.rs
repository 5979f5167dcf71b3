//! The sync engine: what the server's manifest says the engine tree should
//! hold, which local files differ from it, and the protocol by which only
//! those are fetched, verified and stored.

pub mod archive;
pub mod laws;
pub mod protocol;

use vstd::prelude::*;

use crate::checksum::{calculate_checksum, checksum_matches, checksum_text};
use crate::config::Config;
use crate::paths::LocalPath;
use crate::text::{concat2, concat3, str_eq};
use crate::updater::{is_success, status_is_success};

verus! {

/// The time, in seconds, after which a request to the sync server is given
/// up; downloads may be large.
pub const SYNC_TIMEOUT_SECS: u64 = 600;

/// The time, in seconds, after which an attempt to connect to the sync
/// server is given up.
pub const SYNC_CONNECT_TIMEOUT_SECS: u64 = 30;

/// What the manifest says of one file.
#[derive(Debug, Clone)]
pub struct FileInfo {
    pub checksum: String,
    pub size: u64,
}

/// One file of the manifest: its path relative to the engine tree, with `/`
/// between names, and what it should hold.
#[derive(Debug, Clone)]
pub struct ManifestEntry {
    pub path: String,
    pub info: FileInfo,
}

/// The expected state of the engine tree, as the server describes it.
#[derive(Debug, Clone)]
pub struct FileManifest {
    pub version: String,
    pub files: Vec<ManifestEntry>,
}

/// Why a sync was given up.
#[derive(Debug, Clone, Copy, PartialEq, Eq, Structural)]
pub enum SyncError {
    /// The server could not be reached.
    ConnectFailed,
    /// The server answered with the given error status.
    ServerError(u16),
    /// The server's answer could not be read as what was asked for.
    ParseFailed,
    /// The file of the given manifest entry could not be downloaded; the
    /// status the server gave.
    DownloadFailed { entry: usize, status: u16 },
    /// The bytes downloaded for the given manifest entry do not hash to its checksum.
    ChecksumMismatch { entry: usize },
    /// The local file system refused an operation.
    Filesystem,
    /// An answer was given that does not fit the step that was handed out.
    UnexpectedAnswer,
}

/// How a request for a document ended; `body` is what was read from the
/// answer, or `None` where it could not be read as the document asked for.
#[derive(Debug, Clone)]
pub enum Reply<T> {
    Unreachable,
    Answered { status: u16, body: Option<T> },
}

/// What a request for a document comes to.
pub open spec fn reply_outcome<T>(reply: Reply<T>) -> Result<T, SyncError> {
    match reply {
        Reply::Unreachable => Err(SyncError::ConnectFailed),
        Reply::Answered { status, body } => if !is_success(status) {
            Err(SyncError::ServerError(status))
        } else {
            match body {
                Some(document) => Ok(document),
                None => Err(SyncError::ParseFailed),
            }
        },
    }
}

/// Whether a local file is in sync with its manifest entry: it exists, has
/// the size and hashes to the checksum that the manifest gives. `local` is
/// the content of the file, `None` where there is no file.
pub open spec fn in_sync(local: Option<Seq<u8>>, info: FileInfo) -> bool {
    &&& local is Some
    &&& local->0.len() == info.size
    &&& checksum_text(local->0) == info.checksum@
}

impl FileManifest {
    /// No path occurs twice.
    pub open spec fn distinct_paths(&self) -> bool {
        forall|i: int, j: int|
            0 <= i < j < self.files.len() ==> self.files[i].path@ != self.files[j].path@
    }

    /// Whether no path occurs twice in the manifest.
    pub fn has_distinct_paths(&self) -> (res: bool)
        ensures
            res == self.distinct_paths(),
    {
        let n = self.files.len();
        let mut j: usize = 0;
        while j < n
            invariant
                n == self.files.len(),
                j <= n,
                forall|a: int, b: int|
                    0 <= a < b < j ==> self.files[a].path@ != self.files[b].path@,
            decreases n - j,
        {
            let mut i: usize = 0;
            while i < j
                invariant
                    n == self.files.len(),
                    j < n,
                    i <= j,
                    forall|a: int| 0 <= a < i ==> self.files[a].path@ != self.files[j as int].path@,
                decreases j - i,
            {
                if str_eq(self.files[i].path.as_str(), self.files[j].path.as_str()) {
                    return false;
                }
                i = i + 1;
            }
            j = j + 1;
        }
        true
    }
}

/// Which way the engine tree is brought up to date.
#[derive(Debug, Clone)]
pub enum SyncPath {
    /// Fetch only the files that differ from the manifest.
    Incremental(FileManifest),
    /// Clear the tree and extract the full archive.
    FullArchive,
}

/// The way to bring an existing tree up to date, given the outcome of the
/// manifest request.
pub open spec fn chosen_path(manifest: Result<FileManifest, SyncError>) -> SyncPath {
    match manifest {
        Ok(m) => SyncPath::Incremental(m),
        Err(_) => SyncPath::FullArchive,
    }
}

/// The sync engine of one installation.
pub struct SyncManager {
    config: Config,
}

impl SyncManager {
    /// The configuration that the sync goes by.
    pub closed spec fn config(&self) -> Config {
        self.config
    }

    /// A sync engine for the installation that `config` describes.
    pub fn new(config: Config) -> (res: SyncManager)
        ensures
            res.config() == config,
    {
        SyncManager { config }
    }

    /// The address of a document of the sync service, given its path on the server.
    pub fn endpoint(&self, path: &str) -> (res: String)
        ensures
            res@ == self.config().server_url@ + path@,
    {
        concat2(self.config.server_url.as_str(), path)
    }

    /// The address at which the server reports its version.
    pub fn version_url(&self) -> (res: String)
        ensures
            res@ == self.config().server_url@ + "/sync/version"@,
    {
        self.endpoint("/sync/version")
    }

    /// The address of the manifest.
    pub fn manifest_url(&self) -> (res: String)
        ensures
            res@ == self.config().server_url@ + "/sync/manifest"@,
    {
        self.endpoint("/sync/manifest")
    }

    /// The address of the full archive.
    pub fn archive_url(&self) -> (res: String)
        ensures
            res@ == self.config().server_url@ + "/sync/full.zip"@,
    {
        self.endpoint("/sync/full.zip")
    }

    /// The engine tree.
    pub fn engine_dir(&self) -> (res: LocalPath)
        ensures
            res@ == self.config().install_dir@.push("engine"@),
    {
        self.config.engine_dir()
    }

    /// The address from which the file of a manifest entry is fetched.
    pub fn file_url(&self, remote_path: &str) -> (res: String)
        ensures
            res@ == self.config().server_url@ + "/sync/file/"@ + remote_path@,
    {
        concat3(self.config.server_url.as_str(), "/sync/file/", remote_path)
    }

    /// Where the file of a manifest entry lies in the engine tree.
    pub fn local_path(&self, remote_path: &str) -> (res: LocalPath)
        ensures
            res@ == self.config().install_dir@.push("engine"@).push(remote_path@),
    {
        self.config.engine_dir().join(remote_path)
    }

    /// Where the full archive is kept while it is extracted.
    pub fn archive_path(&self) -> (res: LocalPath)
        ensures
            res@ == self.config().install_dir@.push("engine.zip"@),
    {
        self.config.install_dir.join("engine.zip")
    }

    /// Judges the server's answer to a version request: the version it
    /// reports, or why there is none.
    pub fn check_server(reply: Reply<String>) -> (res: Result<String, SyncError>)
        ensures
            res == reply_outcome(reply),
    {
        Self::judge(reply)
    }

    /// Judges the server's answer to a manifest request: the manifest, or why
    /// there is none.
    pub fn get_manifest(reply: Reply<FileManifest>) -> (res: Result<FileManifest, SyncError>)
        ensures
            res == reply_outcome(reply),
    {
        Self::judge(reply)
    }

    fn judge<T>(reply: Reply<T>) -> (res: Result<T, SyncError>)
        ensures
            res == reply_outcome(reply),
    {
        match reply {
            Reply::Unreachable => Err(SyncError::ConnectFailed),
            Reply::Answered { status, body } => {
                if !status_is_success(status) {
                    return Err(SyncError::ServerError(status));
                }
                match body {
                    Some(document) => Ok(document),
                    None => Err(SyncError::ParseFailed),
                }
            },
        }
    }

    /// The checksum of the bytes of a file.
    pub fn calculate_checksum(bytes: &[u8]) -> (res: String)
        ensures
            res@ == checksum_text(bytes@),
    {
        calculate_checksum(bytes)
    }

    /// Whether a local file has to be fetched again: it does unless it exists
    /// with the size and the checksum of its manifest entry.
    pub fn file_needs_sync(local: Option<&[u8]>, info: &FileInfo) -> (res: bool)
        ensures
            res == !in_sync(
                match local {
                    Some(bytes) => Some(bytes@),
                    None => None,
                },
                *info,
            ),
    {
        match local {
            None => true,
            Some(bytes) => {
                if bytes.len() as u64 != info.size {
                    true
                } else {
                    !checksum_matches(bytes, info.checksum.as_str())
                }
            },
        }
    }

    /// Whether the engine tree has to be fetched as a whole: it does where
    /// there is no tree yet or the tree holds nothing.
    pub fn needs_full_archive(tree_exists: bool, entries: usize) -> (res: bool)
        ensures
            res == (!tree_exists || entries == 0),
    {
        !tree_exists || entries == 0
    }

    /// Chooses the way to bring an existing tree up to date from the outcome
    /// of the manifest request: by the manifest where there is one, by the
    /// full archive where the manifest could not be had, whatever the reason.
    pub fn sync_path(manifest: Result<FileManifest, SyncError>) -> (res: SyncPath)
        ensures
            res == chosen_path(manifest),
    {
        match manifest {
            Ok(m) => SyncPath::Incremental(m),
            Err(_) => SyncPath::FullArchive,
        }
    }
}

/// Fallback: whenever the manifest cannot be had, because the server is
/// unreachable, answers with an error status, or sends what is no manifest,
/// the tree is brought up to date by the full archive.
pub proof fn lemma_manifest_failure_falls_back(reply: Reply<FileManifest>)
    requires
        reply is Unreachable || (reply matches Reply::Answered { status, body } && (!is_success(
            status,
        ) || body is None)),
    ensures
        reply_outcome(reply) is Err,
        chosen_path(reply_outcome(reply)) is FullArchive,
{
}

/// A manifest that the server delivers is the one that the sync goes by.
pub proof fn lemma_manifest_is_used(status: u16, manifest: FileManifest)
    requires
        is_success(status),
    ensures
        chosen_path(reply_outcome(Reply::Answered { status, body: Some(manifest) }))
            == SyncPath::Incremental(manifest),
{
}

} // verus!
