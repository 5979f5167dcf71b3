//! The launcher's configuration: where it installs, which server it talks
//! to, and which versions of its dependencies it manages.

use vstd::prelude::*;

use crate::paths::LocalPath;
use crate::text::{concat2, trim_text, trimmed};

verus! {

/// The version of this launcher, against which an offered update is compared.
pub const LAUNCHER_VERSION: &'static str = "1.0.0";

/// The version of the launcher's own source.
pub const SOURCE_VERSION: &'static str = "1.0.0";

/// The server that a fresh installation talks to.
pub const DEFAULT_SERVER_URL: &'static str = "https://aaa-mmorpg-engine-danielbodnar2.replit.app";

/// The variable whose value, where it is set and not empty, names the server
/// to talk to, whatever is configured.
pub const SERVER_URL_VARIABLE: &'static str = "AAA_SERVER_URL";

/// The root that stands in for the per-user data directory where the
/// system names none.
pub const FALLBACK_DATA_ROOT: &'static str = "C:\\";

/// The folder, inside the per-user data directory, that holds the installation.
pub const INSTALL_FOLDER: &'static str = "AAAEngine";

/// The settings of one installation, made once at startup and handed to
/// every component.
#[derive(Debug, Clone)]
pub struct Config {
    pub server_url: String,
    pub install_dir: LocalPath,
    pub o3de_version: String,
    pub vulkan_version: String,
    pub tracy_version: String,
    pub force_rebuild: bool,
    pub skip_update: bool,
    pub verbose: bool,
}

/// The root of the installation folder: the per-user data directory, or the
/// fallback root where the system names none.
pub open spec fn data_root(local_data_dir: Option<Seq<char>>) -> Seq<char> {
    match local_data_dir {
        Some(dir) => dir,
        None => FALLBACK_DATA_ROOT@,
    }
}

/// The server that a run talks to: the override variable where it is set and
/// not empty; else the trimmed text of the override file where that is not
/// empty; else the configured server.
pub open spec fn effective_server_url(
    configured: Seq<char>,
    url_file: Option<Seq<char>>,
    url_env: Option<Seq<char>>,
) -> Seq<char> {
    if url_env is Some && url_env->0.len() > 0 {
        url_env->0
    } else if url_file is Some && trimmed(url_file->0).len() > 0 {
        trimmed(url_file->0)
    } else {
        configured
    }
}

impl Config {
    /// Whether two configurations hold the same values.
    pub open spec fn same_values(&self, other: &Config) -> bool {
        &&& self.server_url@ == other.server_url@
        &&& self.same_but_server(other)
    }

    /// Whether two configurations agree on everything but the server.
    pub open spec fn same_but_server(&self, other: &Config) -> bool {
        &&& self.install_dir@ == other.install_dir@
        &&& self.o3de_version@ == other.o3de_version@
        &&& self.vulkan_version@ == other.vulkan_version@
        &&& self.tracy_version@ == other.tracy_version@
        &&& self.force_rebuild == other.force_rebuild
        &&& self.skip_update == other.skip_update
        &&& self.verbose == other.verbose
    }

    /// The configuration of a fresh installation, given the per-user data
    /// directory that the system names, if it names one.
    pub fn with_defaults(local_data_dir: Option<&str>) -> (res: Config)
        ensures
            res.server_url@ == DEFAULT_SERVER_URL@,
            res.install_dir@ == seq![
                data_root(
                    match local_data_dir {
                        Some(d) => Some(d@),
                        None => None,
                    },
                ),
                INSTALL_FOLDER@,
            ],
            res.o3de_version@ == "2510.1"@,
            res.vulkan_version@ == "1.3.290.0"@,
            res.tracy_version@ == "0.11.1"@,
            !res.force_rebuild,
            !res.skip_update,
            !res.verbose,
    {
        let root = match local_data_dir {
            Some(d) => LocalPath::new(d),
            None => LocalPath::new(FALLBACK_DATA_ROOT),
        };
        let install_dir = root.join(INSTALL_FOLDER);
        assert(install_dir@ =~= seq![root@[0], INSTALL_FOLDER@]);
        Config {
            server_url: DEFAULT_SERVER_URL.to_owned(),
            install_dir,
            o3de_version: "2510.1".to_owned(),
            vulkan_version: "1.3.290.0".to_owned(),
            tracy_version: "0.11.1".to_owned(),
            force_rebuild: false,
            skip_update: false,
            verbose: false,
        }
    }

    /// A copy of the configuration.
    pub fn duplicate(&self) -> (res: Config)
        ensures
            res.same_values(self),
    {
        Config {
            server_url: self.server_url.clone(),
            install_dir: self.install_dir.duplicate(),
            o3de_version: self.o3de_version.clone(),
            vulkan_version: self.vulkan_version.clone(),
            tracy_version: self.tracy_version.clone(),
            force_rebuild: self.force_rebuild,
            skip_update: self.skip_update,
            verbose: self.verbose,
        }
    }

    /// The configuration of a run: the stored configuration, or the defaults
    /// where none is stored, with the server replaced by an override where
    /// one is given. `url_file` is the text of the override file in the
    /// installation directory, `url_env` the value of the override variable.
    pub fn load(
        stored: Option<Config>,
        local_data_dir: Option<&str>,
        url_file: Option<&str>,
        url_env: Option<&str>,
    ) -> (res: Config)
        ensures
            stored matches Some(c) ==> res.same_but_server(&c) && res.server_url@
                == effective_server_url(
                c.server_url@,
                match url_file {
                    Some(t) => Some(t@),
                    None => None,
                },
                match url_env {
                    Some(t) => Some(t@),
                    None => None,
                },
            ),
            stored is None ==> res.install_dir@ == seq![
                data_root(
                    match local_data_dir {
                        Some(d) => Some(d@),
                        None => None,
                    },
                ),
                INSTALL_FOLDER@,
            ] && res.o3de_version@ == "2510.1"@ && res.vulkan_version@ == "1.3.290.0"@
                && res.tracy_version@ == "0.11.1"@ && !res.force_rebuild && !res.skip_update
                && !res.verbose && res.server_url@ == effective_server_url(
                DEFAULT_SERVER_URL@,
                match url_file {
                    Some(t) => Some(t@),
                    None => None,
                },
                match url_env {
                    Some(t) => Some(t@),
                    None => None,
                },
            ),
    {
        let mut config = match stored {
            Some(c) => c,
            None => Config::with_defaults(local_data_dir),
        };
        match url_file {
            Some(text) => {
                let url = trim_text(text);
                if !url.as_str().is_empty() {
                    config.server_url = url;
                }
            },
            None => {},
        }
        match url_env {
            Some(url) => {
                if !url.is_empty() {
                    config.server_url = url.to_owned();
                }
            },
            None => {},
        }
        config
    }

    /// Where the stored configuration lies.
    pub fn config_path(local_data_dir: Option<&str>) -> (res: LocalPath)
        ensures
            res@ == seq![
                data_root(
                    match local_data_dir {
                        Some(d) => Some(d@),
                        None => None,
                    },
                ),
                INSTALL_FOLDER@,
                "launcher_config.json"@,
            ],
    {
        let root = match local_data_dir {
            Some(d) => LocalPath::new(d),
            None => LocalPath::new(FALLBACK_DATA_ROOT),
        };
        let res = root.join(INSTALL_FOLDER).join("launcher_config.json");
        assert(res@ =~= seq![root@[0], INSTALL_FOLDER@, "launcher_config.json"@]);
        res
    }

    /// Where the file lies whose text overrides the configured server.
    pub fn server_url_file(&self) -> (res: LocalPath)
        ensures
            res@ == self.install_dir@.push("server_url.txt"@),
    {
        self.install_dir.join("server_url.txt")
    }

    /// Where the installers and the managed dependencies are kept.
    pub fn deps_dir(&self) -> (res: LocalPath)
        ensures
            res@ == self.install_dir@.push("deps"@),
    {
        self.install_dir.join("deps")
    }

    /// The launcher's own place for the engine SDK.
    pub fn o3de_dir(&self) -> (res: LocalPath)
        ensures
            res@ == self.install_dir@.push("o3de"@),
    {
        self.install_dir.join("o3de")
    }

    /// The engine tree: what the sync brings up to date and the build builds.
    pub fn engine_dir(&self) -> (res: LocalPath)
        ensures
            res@ == self.install_dir@.push("engine"@),
    {
        self.install_dir.join("engine")
    }

    /// Where the log files are written.
    pub fn logs_dir(&self) -> (res: LocalPath)
        ensures
            res@ == self.install_dir@.push("logs"@),
    {
        self.install_dir.join("logs")
    }

    /// The launcher's own place for the configured version of the Vulkan SDK.
    pub fn vulkan_sdk_dir(&self) -> (res: LocalPath)
        ensures
            res@ == self.install_dir@.push("deps"@).push("VulkanSDK\\"@ + self.vulkan_version@),
    {
        let name = concat2("VulkanSDK\\", self.vulkan_version.as_str());
        self.deps_dir().join(name.as_str())
    }

    /// The launcher's own place for the configured version of the profiler.
    pub fn tracy_dir(&self) -> (res: LocalPath)
        ensures
            res@ == self.install_dir@.push("deps"@).push("tracy-"@ + self.tracy_version@),
    {
        let name = concat2("tracy-", self.tracy_version.as_str());
        self.deps_dir().join(name.as_str())
    }
}

} // verus!
