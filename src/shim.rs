//! The text of the shim that forwards to the active version, and of the
//! desktop entry that launches it.

use vstd::prelude::*;
use crate::paths::{join_path, joined};

verus! {

/// The shim up to the path of the `current` link.
pub const SHIM_HEAD: &'static str = "#!/usr/bin/env bash\nset -euo pipefail\nCURRENT_LINK=\"";

/// The shim after the path of the `current` link: it resolves the link when
/// it runs, execs the application's executable with all arguments, and
/// exits with status 127 and a message on stderr when there is none.
pub const SHIM_TAIL: &'static str = "\"\nROOT=\"$(readlink -f \"$CURRENT_LINK\")\"\nexe=\"$ROOT/Windsurf/bin/windsurf\"\nif [ -x \"$exe\" ]; then\n  exec \"$exe\" \"$@\"\nfi\n# fallback: an executable at the root of the version\nif [ -x \"$ROOT/windsurf\" ]; then\n  exec \"$ROOT/windsurf\" \"$@\"\nfi\necho \"windman: could not locate Windsurf executable at: $exe\" >&2\nexit 127\n";

/// The shim's text for a `current` link path.
pub open spec fn shim_text(current_link: Seq<char>) -> Seq<char> {
    SHIM_HEAD@ + current_link + SHIM_TAIL@
}

/// The forwarder script. It names the `current` link, not its target, so
/// activations and rollbacks take effect without rewriting it.
pub fn shim_script(current_link: &str) -> (r: String)
    ensures
        r@ == shim_text(current_link@),
{
    let mut s = String::from_str(SHIM_HEAD);
    s.append(current_link);
    s.append(SHIM_TAIL);
    s
}

/// The executable's name inside a version directory, used by the desktop entry.
pub const APP_EXECUTABLE: &'static str = "Windsurf";

pub const DESKTOP_HEAD: &'static str = "[Desktop Entry]\nName=Windsurf\nComment=AI IDE by Codeium\nExec=";

pub const DESKTOP_TAIL: &'static str = " %U\nTerminal=false\nType=Application\nIcon=windsurf\nCategories=Development;IDE;\nStartupWMClass=Windsurf\n";

/// The desktop entry's text for a `current` link path.
pub open spec fn desktop_text(current_link: Seq<char>) -> Seq<char> {
    DESKTOP_HEAD@ + joined(current_link, APP_EXECUTABLE@) + DESKTOP_TAIL@
}

/// The desktop entry, whose `Exec=` line goes through the `current` link.
pub fn desktop_entry(current_link: &str) -> (r: String)
    ensures
        r@ == desktop_text(current_link@),
{
    let exec = join_path(current_link, APP_EXECUTABLE);
    let mut s = String::from_str(DESKTOP_HEAD);
    s.append(exec.as_str());
    s.append(DESKTOP_TAIL);
    s
}

} // verus!
