//! The launcher's command line: its flags, what it prints for them, and the
//! exit code it ends with.

use vstd::prelude::*;

use crate::config::{Config, LAUNCHER_VERSION};
use crate::paths::text_views;
use crate::text::{concat2, str_eq};

verus! {

/// The flags given on the command line.
#[derive(Debug, Clone, Copy, PartialEq, Eq, Structural)]
pub struct Args {
    pub help: bool,
    pub version: bool,
    pub dry_run: bool,
    pub verbose: bool,
    pub skip_elevation: bool,
}

/// Whether one of the words is the flag, in its long or its short form.
pub open spec fn flag_given(words: Seq<Seq<char>>, long: Seq<char>, short: Seq<char>) -> bool {
    words.contains(long) || words.contains(short)
}

/// The flags that a command line gives. A flag may stand anywhere, and words
/// that are no flag are passed over.
pub open spec fn flags_of(words: Seq<Seq<char>>) -> Args {
    Args {
        help: flag_given(words, "--help"@, "-h"@),
        version: flag_given(words, "--version"@, "-V"@),
        dry_run: flag_given(words, "--dry-run"@, "--test"@),
        verbose: flag_given(words, "--verbose"@, "-v"@),
        skip_elevation: words.contains("--skip-elevation"@),
    }
}

/// What the launcher does for its flags.
#[derive(Debug, Clone, Copy, PartialEq, Eq, Structural)]
pub enum Mode {
    /// Print the help and end with success.
    Help,
    /// Print the version and end with success.
    Version,
    /// Run the pipeline.
    Run,
}

/// Whether one of the words is the flag, in its long or its short form.
pub fn has_flag(words: &Vec<String>, long: &str, short: &str) -> (res: bool)
    ensures
        res == flag_given(text_views(words@), long@, short@),
{
    let ghost texts = text_views(words@);
    let mut i: usize = 0;
    while i < words.len()
        invariant
            texts == text_views(words@),
            i <= words.len(),
            forall|k: int| 0 <= k < i ==> texts[k] != long@ && texts[k] != short@,
        decreases words.len() - i,
    {
        if str_eq(words[i].as_str(), long) || str_eq(words[i].as_str(), short) {
            assert(texts[i as int] == words[i as int]@);
            return true;
        }
        i = i + 1;
    }
    false
}

/// Reads the flags from the words of the command line.
pub fn parse_args(words: &Vec<String>) -> (res: Args)
    ensures
        res == flags_of(text_views(words@)),
{
    Args {
        help: has_flag(words, "--help", "-h"),
        version: has_flag(words, "--version", "-V"),
        dry_run: has_flag(words, "--dry-run", "--test"),
        verbose: has_flag(words, "--verbose", "-v"),
        skip_elevation: has_flag(words, "--skip-elevation", "--skip-elevation"),
    }
}

/// The configuration of a run with the flags of the command line applied to
/// it: they decide, last of all, whether the run is verbose.
pub fn apply_flags(config: Config, args: &Args) -> (res: Config)
    ensures
        res.verbose == args.verbose,
        res.server_url == config.server_url,
        res.install_dir == config.install_dir,
        res.o3de_version == config.o3de_version,
        res.vulkan_version == config.vulkan_version,
        res.tracy_version == config.tracy_version,
        res.force_rebuild == config.force_rebuild,
        res.skip_update == config.skip_update,
{
    let mut config = config;
    config.verbose = args.verbose;
    config
}

/// What the launcher does for its flags: help comes before version, and
/// either before a run.
pub fn mode(args: &Args) -> (res: Mode)
    ensures
        res == if args.help {
            Mode::Help
        } else if args.version {
            Mode::Version
        } else {
            Mode::Run
        },
{
    if args.help {
        Mode::Help
    } else if args.version {
        Mode::Version
    } else {
        Mode::Run
    }
}

/// Whether the launcher asks for administrator rights before it runs: only
/// on a system that has them to give, and unless it was told not to or has
/// them already.
pub fn wants_elevation(args: &Args, elevation_supported: bool, elevated: bool) -> (res: bool)
    ensures
        res == (elevation_supported && !args.skip_elevation && !elevated),
{
    elevation_supported && !args.skip_elevation && !elevated
}

/// The exit code of the process: 0 where the pipeline completed, 1 where a
/// stage failed.
pub fn exit_code(completed: bool) -> (res: i32)
    ensures
        res == 0 <==> completed,
        !completed ==> res == 1,
{
    if completed {
        0
    } else {
        1
    }
}

/// The line printed for `--version`.
pub fn version_line() -> (res: String)
    ensures
        res@ == "aaa-launcher "@ + LAUNCHER_VERSION@,
{
    concat2("aaa-launcher ", LAUNCHER_VERSION)
}

/// The lines printed for `--help`.
pub fn help_lines() -> (res: Vec<String>)
    ensures
        res.len() == 11,
        res[0]@ == "AAA MMORPG Engine Launcher v"@ + LAUNCHER_VERSION@,
        res[1]@ == ""@,
        res[2]@ == "USAGE:"@,
        res[3]@ == "    aaa-launcher.exe [OPTIONS]"@,
        res[4]@ == ""@,
        res[5]@ == "OPTIONS:"@,
        res[6]@ == "    -h, --help           Show this help message"@,
        res[7]@ == "    -V, --version        Show version"@,
        res[8]@ == "    -v, --verbose        Enable verbose logging"@,
        res[9]@ == "    --dry-run            Test mode (check deps, don't build)"@,
        res[10]@ == "    --skip-elevation     Don't request admin rights"@,
{
    let mut lines: Vec<String> = Vec::new();
    lines.push(concat2("AAA MMORPG Engine Launcher v", LAUNCHER_VERSION));
    lines.push("".to_owned());
    lines.push("USAGE:".to_owned());
    lines.push("    aaa-launcher.exe [OPTIONS]".to_owned());
    lines.push("".to_owned());
    lines.push("OPTIONS:".to_owned());
    lines.push("    -h, --help           Show this help message".to_owned());
    lines.push("    -V, --version        Show version".to_owned());
    lines.push("    -v, --verbose        Enable verbose logging".to_owned());
    lines.push("    --dry-run            Test mode (check deps, don't build)".to_owned());
    lines.push("    --skip-elevation     Don't request admin rights".to_owned());
    lines
}

} // verus!
