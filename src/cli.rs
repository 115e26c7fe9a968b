//! The command line as the library sees it: the commands and their options,
//! and the decisions the commands make before touching the disk.

use vstd::prelude::*;
use crate::config::Config;
use crate::error::ManagerError;
use crate::trusted::{compare_semver, is_semver, parses_as_semver, semver_cmp};

verus! {

/// Options of every command, and the command.
#[derive(Clone, Debug)]
pub struct Cli {
    /// Configuration file to use instead of the default one.
    pub config: Option<String>,
    /// Install prefix for this run.
    pub prefix: Option<String>,
    /// Directory of the shim for this run.
    pub bin_dir: Option<String>,
    /// Print the paths in use.
    pub verbose: bool,
    pub cmd: Commands,
}

/// The commands.
#[derive(Clone, Debug)]
pub enum Commands {
    /// Install from a local archive.
    Install(InstallArgs),
    /// Compare the local version with the latest release and install it if newer.
    Update(UpdateArgs),
    /// Show the local version and the paths.
    Status,
    /// Print the install and shim paths.
    Where,
    /// List the installed versions and mark the current one.
    List,
    /// Show the changelog (not available yet).
    Changelog,
    /// Remove the installs and the shim.
    Uninstall { purge: bool },
    /// Switch back to the previous version.
    Rollback,
    /// Switch to an installed version.
    Use(UseArgs),
    /// Manage the configuration.
    Config(ConfigCmd),
    /// Query the latest-release endpoint.
    DevLatest(DevLatestArgs),
    /// Exercise the downloader.
    DevDownload(DevDownloadArgs),
}

/// Options of `use`.
#[derive(Clone, Debug)]
pub struct UseArgs {
    /// The version directory to activate.
    pub version: String,
    /// Show what would change without changing it.
    pub dry_run: bool,
}

/// Options of `dev-latest`.
#[derive(Clone, Debug)]
pub struct DevLatestArgs {
    pub timeout: Option<u64>,
    pub dump_html: Option<String>,
}

/// Options of `install`.
#[derive(Clone, Debug)]
pub struct InstallArgs {
    /// The local archive.
    pub tar: Option<String>,
    /// Create the desktop entry even when the configuration says not to.
    pub desktop: bool,
    /// Do not create the desktop entry.
    pub no_desktop: bool,
    /// How many versions to keep, instead of the configured number.
    pub keep: Option<usize>,
    /// Show what would change without changing it.
    pub dry_run: bool,
}

/// Options of `update`.
#[derive(Clone, Debug)]
pub struct UpdateArgs {
    pub desktop: bool,
    pub no_desktop: bool,
    pub dry_run: bool,
}

/// Subcommands of `config`.
#[derive(Clone, Copy, Debug, PartialEq, Eq)]
pub enum ConfigCmd {
    /// Write the default configuration file if there is none.
    Init,
    /// Show the configuration in effect.
    Show,
}

/// Options of `dev-download`.
#[derive(Clone, Debug)]
pub struct DevDownloadArgs {
    pub url: String,
    pub out: String,
    pub timeout: Option<u64>,
}

/// The value of an override, or the configured one.
pub open spec fn overridden(o: Option<String>, configured: String) -> Seq<char> {
    match o {
        Some(v) => v@,
        None => configured@,
    }
}

impl Cli {
    /// Applies `--prefix` and `--bin-dir` to the configuration for this run.
    pub fn apply_overrides(&self, cfg: &mut Config)
        ensures
            final(cfg).install.prefix_dir@ == overridden(self.prefix, old(cfg).install.prefix_dir),
            final(cfg).install.bin_dir@ == overridden(self.bin_dir, old(cfg).install.bin_dir),
            final(cfg).install.channel == old(cfg).install.channel,
            final(cfg).install.keep == old(cfg).install.keep,
            final(cfg).install.desktop_integration == old(cfg).install.desktop_integration,
            final(cfg).network == old(cfg).network,
    {
        match &self.prefix {
            Some(p) => {
                cfg.install.prefix_dir = p.clone();
            },
            None => {},
        }
        match &self.bin_dir {
            Some(b) => {
                cfg.install.bin_dir = b.clone();
            },
            None => {},
        }
    }
}

/// Whether an install writes the desktop entry: never with `--no-desktop`,
/// otherwise with `--desktop` or when the configuration asks for it.
pub fn wants_desktop(no_desktop: bool, desktop: bool, configured: bool) -> (r: bool)
    ensures
        r == (!no_desktop && (desktop || configured)),
{
    !no_desktop && (desktop || configured)
}

impl InstallArgs {
    /// The number of versions to keep: `--keep` when given, else the configured one.
    pub fn keep_or(&self, configured: usize) -> (r: usize)
        ensures
            r == match self.keep {
                Some(k) => k,
                None => configured,
            },
    {
        match self.keep {
            Some(k) => k,
            None => configured,
        }
    }
}

/// What `update` does after comparing versions.
#[derive(Clone, Copy, Debug, PartialEq, Eq)]
pub enum UpdateDecision {
    /// The local version is at least the latest one.
    UpToDate,
    /// Download and install the latest release.
    Install,
}

/// Compares the local version with the latest one: fails when the latest is
/// not SemVer; up to date when the local version parses and is not lower;
/// otherwise (nothing installed, or a local version that does not parse)
/// the latest is installed.
pub fn update_decision(local: &Option<String>, latest: &str) -> (r: Result<
    UpdateDecision,
    ManagerError,
>)
    ensures
        r is Err <==> !is_semver(latest@),
        r matches Err(e) ==> (e matches ManagerError::RemoteVersionUnparsable { version } && version@
            == latest@),
        r matches Ok(d) ==> (d == UpdateDecision::UpToDate <==> (local matches Some(l) && semver_cmp(
            l@,
            latest@,
        ) matches Some(o) && o != core::cmp::Ordering::Less)),
{
    if !parses_as_semver(latest) {
        return Err(ManagerError::RemoteVersionUnparsable { version: String::from_str(latest) });
    }
    match local {
        Some(l) => match compare_semver(l.as_str(), latest) {
            Some(o) => match o {
                core::cmp::Ordering::Less => Ok(UpdateDecision::Install),
                _ => Ok(UpdateDecision::UpToDate),
            },
            None => Ok(UpdateDecision::Install),
        },
        None => Ok(UpdateDecision::Install),
    }
}

} // verus!
