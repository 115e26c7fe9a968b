//! Where things live: the versions root, the `current` link, the shim and
//! the desktop files.

use vstd::prelude::*;
use crate::config::Config;
use crate::error::ManagerError;
use crate::listing::CURRENT_NAME;
pub use crate::trusted::expand_tilde;
use crate::trusted::tilde_expansion;

verus! {

/// The shim's file name.
pub const SHIM_NAME: &'static str = "windsurf";

/// The desktop entry's file name.
pub const DESKTOP_NAME: &'static str = "windsurf.desktop";

/// Where desktop entries go, before tilde expansion.
pub const APPLICATIONS_DIR: &'static str = "~/.local/share/applications";

/// Where the icon goes, before tilde expansion.
pub const ICONS_DIR: &'static str = "~/.local/share/icons/hicolor/512x512/apps";

/// `part` appended to `base` as a path component: an absolute `part`
/// replaces `base`, and a separator is added only where one is missing.
pub open spec fn joined(base: Seq<char>, part: Seq<char>) -> Seq<char> {
    if part.len() > 0 && part[0] == '/' {
        part
    } else if base.len() == 0 {
        part
    } else if base.last() == '/' {
        base + part
    } else {
        base + seq!['/'] + part
    }
}

/// Appends a path component.
pub fn join_path(base: &str, part: &str) -> (r: String)
    ensures
        r@ == joined(base@, part@),
{
    let lb = base.unicode_len();
    let lp = part.unicode_len();
    if lp > 0 && part.get_char(0) == '/' {
        return String::from_str(part);
    }
    if lb == 0 {
        return String::from_str(part);
    }
    let mut r = String::from_str(base);
    if base.get_char(lb - 1) != '/' {
        r.append("/");
        proof {
            reveal_strlit("/");
        }
    }
    r.append(part);
    assert(r@ =~= joined(base@, part@));
    r
}

/// The resolved locations of one installation.
#[derive(Clone, Debug)]
pub struct EffectivePaths {
    pub prefix_dir: String,
    pub versions_dir: String,
    pub current_symlink: String,
    pub bin_dir: String,
    pub bin_shim: String,
    pub desktop_file: String,
    pub icons_dir: String,
}

/// The layout that an install prefix, a bin directory, an applications
/// directory and an icons directory (all already expanded) give.
pub open spec fn is_layout(
    p: EffectivePaths,
    prefix: Seq<char>,
    bin: Seq<char>,
    applications: Seq<char>,
    icons: Seq<char>,
) -> bool {
    &&& p.prefix_dir@ == prefix
    &&& p.versions_dir@ == prefix
    &&& p.current_symlink@ == joined(prefix, CURRENT_NAME@)
    &&& p.bin_dir@ == bin
    &&& p.bin_shim@ == joined(bin, SHIM_NAME@)
    &&& p.desktop_file@ == joined(applications, DESKTOP_NAME@)
    &&& p.icons_dir@ == icons
}

/// Lays out the paths from already-expanded directories: the versions root
/// is the prefix, `current` lives in it, the shim in the bin directory.
pub fn paths_from_expanded(prefix: &str, bin: &str, applications: &str, icons: &str) -> (r:
    EffectivePaths)
    ensures
        is_layout(r, prefix@, bin@, applications@, icons@),
{
    EffectivePaths {
        prefix_dir: String::from_str(prefix),
        versions_dir: String::from_str(prefix),
        current_symlink: join_path(prefix, CURRENT_NAME),
        bin_dir: String::from_str(bin),
        bin_shim: join_path(bin, SHIM_NAME),
        desktop_file: join_path(applications, DESKTOP_NAME),
        icons_dir: String::from_str(icons),
    }
}

/// Resolves the configured directories, expanding a leading `~` to the home
/// directory. It does not fail.
pub fn resolve_paths(cfg: &Config) -> (r: Result<EffectivePaths, ManagerError>)
    ensures
        r is Ok,
        r matches Ok(p) ==> exists|apps: Seq<char>|
            tilde_expansion(APPLICATIONS_DIR@, apps) && #[trigger] is_layout(
                p,
                p.prefix_dir@,
                p.bin_dir@,
                apps,
                p.icons_dir@,
            ),
        r matches Ok(p) ==> tilde_expansion(cfg.install.prefix_dir@, p.prefix_dir@)
            && tilde_expansion(cfg.install.bin_dir@, p.bin_dir@) && tilde_expansion(
            ICONS_DIR@,
            p.icons_dir@,
        ),
{
    let prefix = expand_tilde(cfg.install.prefix_dir.as_str());
    let bin = expand_tilde(cfg.install.bin_dir.as_str());
    let apps = expand_tilde(APPLICATIONS_DIR);
    let icons = expand_tilde(ICONS_DIR);
    let p = paths_from_expanded(prefix.as_str(), bin.as_str(), apps.as_str(), icons.as_str());
    let r = Ok(p);
    assert(r matches Ok(q) && is_layout(q, q.prefix_dir@, q.bin_dir@, apps@, q.icons_dir@));
    r
}

} // verus!
