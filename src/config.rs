//! The user's configuration: its fields, its defaults, its file and the text
//! written when none exists yet.

use vstd::prelude::*;
use crate::paths::{join_path, joined};
use crate::text::{bool_text, decimal, push_bool, push_decimal};
use crate::trusted::{expand_tilde, parent_of, path_parent, project_config_dir, tilde_expansion};

verus! {

/// The configuration file's name inside the configuration directory.
pub const CONFIG_FILE_NAME: &'static str = "windman.toml";

/// Where the configuration file is, and its directory.
#[derive(Clone, Debug)]
pub struct ConfigPaths {
    pub dir: String,
    pub file: String,
}

/// The directory of a file: its parent, or `.` when it has none.
pub open spec fn dir_of(file: Seq<char>) -> Seq<char> {
    match path_parent(file) {
        Some(p) => p,
        None => "."@,
    }
}

impl ConfigPaths {
    /// The configuration at a given file, in that file's directory.
    pub fn for_file(file: String) -> (r: ConfigPaths)
        ensures
            r.file@ == file@,
            r.dir@ == dir_of(file@),
    {
        let dir = match parent_of(file.as_str()) {
            Some(p) => p,
            None => String::from_str("."),
        };
        ConfigPaths { dir, file }
    }

    /// The configuration file inside a configuration directory.
    pub fn in_dir(dir: String) -> (r: ConfigPaths)
        ensures
            r.dir@ == dir@,
            r.file@ == joined(dir@, CONFIG_FILE_NAME@),
    {
        let file = join_path(dir.as_str(), CONFIG_FILE_NAME);
        ConfigPaths { dir, file }
    }

    /// The configuration at `override_path` (with `~` expanded) when one is
    /// given, else in the per-user configuration directory; `None` when no
    /// path is given and no home directory is known.
    pub fn from_override(override_path: Option<&str>) -> (r: Option<ConfigPaths>)
        ensures
            override_path matches Some(p) ==> (r matches Some(c) && tilde_expansion(p@, c.file@)
                && c.dir@ == dir_of(c.file@)),
            override_path is None && r is Some ==> r->0.file@ == joined(r->0.dir@, CONFIG_FILE_NAME@),
    {
        match override_path {
            Some(p) => Some(ConfigPaths::for_file(expand_tilde(p))),
            None => match project_config_dir() {
                Some(d) => Some(ConfigPaths::in_dir(d)),
                None => None,
            },
        }
    }

    /// The configuration file's path, for display.
    pub fn config_display(&self) -> (r: String)
        ensures
            r@ == self.file@,
    {
        self.file.clone()
    }
}

/// Where and how versions are installed.
#[derive(Clone, Debug)]
pub struct InstallConfig {
    /// Userland prefix under which versions are installed.
    pub prefix_dir: String,
    /// Where the shim is written.
    pub bin_dir: String,
    /// Release channel; only `stable` exists.
    pub channel: String,
    /// How many of the newest versions a prune keeps.
    pub keep: usize,
    /// Whether installs create or update the desktop entry.
    pub desktop_integration: bool,
}

/// Network settings.
#[derive(Clone, Copy, Debug)]
pub struct NetworkConfig {
    /// Reserved for proxy support.
    pub proxy_enabled: bool,
}

/// Changelog settings (none yet).
#[derive(Clone, Copy, Debug)]
pub struct ChangelogConfig {}

impl Default for ChangelogConfig {
    fn default() -> (r: ChangelogConfig)
        ensures
            r == (ChangelogConfig {}),
    {
        ChangelogConfig {}
    }
}

/// The whole configuration.
#[derive(Clone, Debug)]
pub struct Config {
    pub install: InstallConfig,
    pub changelog: ChangelogConfig,
    pub network: NetworkConfig,
}

pub const DEFAULT_PREFIX: &'static str = "~/.local/opt/windsurf";

pub const DEFAULT_BIN: &'static str = "~/.local/bin";

pub const DEFAULT_CHANNEL: &'static str = "stable";

pub const DEFAULT_KEEP: usize = 2;

impl Default for Config {
    /// Installs under `~/.local/opt/windsurf`, the shim in `~/.local/bin`,
    /// the stable channel, two versions kept, desktop integration on.
    fn default() -> (r: Config)
        ensures
            r.install.prefix_dir@ == DEFAULT_PREFIX@,
            r.install.bin_dir@ == DEFAULT_BIN@,
            r.install.channel@ == DEFAULT_CHANNEL@,
            r.install.keep == DEFAULT_KEEP,
            r.install.desktop_integration,
            !r.network.proxy_enabled,
    {
        Config {
            install: InstallConfig {
                prefix_dir: String::from_str(DEFAULT_PREFIX),
                bin_dir: String::from_str(DEFAULT_BIN),
                channel: String::from_str(DEFAULT_CHANNEL),
                keep: DEFAULT_KEEP,
                desktop_integration: true,
            },
            changelog: ChangelogConfig {},
            network: NetworkConfig { proxy_enabled: false },
        }
    }
}

pub const TOML_PREFIX: &'static str = "[install]\nprefix_dir = \"";

pub const TOML_BIN: &'static str = "\"\nbin_dir = \"";

pub const TOML_CHANNEL: &'static str = "\"\nchannel = \"";

pub const TOML_KEEP: &'static str = "\"\nkeep = ";

pub const TOML_DESKTOP: &'static str = "\ndesktop_integration = ";

pub const TOML_NETWORK: &'static str = "\n\n[changelog]\n\n[network]\nproxy_enabled = ";

pub const TOML_END: &'static str = "\n";

/// The TOML text of a configuration, as written to a new configuration file.
pub open spec fn config_text(c: Config) -> Seq<char> {
    TOML_PREFIX@ + c.install.prefix_dir@ + TOML_BIN@ + c.install.bin_dir@ + TOML_CHANNEL@
        + c.install.channel@ + TOML_KEEP@ + decimal(c.install.keep as nat) + TOML_DESKTOP@
        + bool_text(c.install.desktop_integration) + TOML_NETWORK@ + bool_text(
        c.network.proxy_enabled,
    ) + TOML_END@
}

impl Config {
    /// Renders the configuration as the TOML text of a configuration file.
    pub fn to_toml_text(&self) -> (r: String)
        ensures
            r@ == config_text(*self),
    {
        let mut s = String::from_str(TOML_PREFIX);
        s.append(self.install.prefix_dir.as_str());
        s.append(TOML_BIN);
        s.append(self.install.bin_dir.as_str());
        s.append(TOML_CHANNEL);
        s.append(self.install.channel.as_str());
        s.append(TOML_KEEP);
        push_decimal(&mut s, self.install.keep);
        s.append(TOML_DESKTOP);
        push_bool(&mut s, self.install.desktop_integration);
        s.append(TOML_NETWORK);
        push_bool(&mut s, self.network.proxy_enabled);
        s.append(TOML_END);
        s
    }
}

} // verus!
