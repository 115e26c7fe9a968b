//! The errors of the version lifecycle and the text a user reads for each.

use vstd::prelude::*;

verus! {

/// Errors of the version lifecycle.
#[derive(Clone, Debug)]
pub enum ManagerError {
    /// The archive could not be opened.
    ArchiveUnreadable { path: String },
    /// Decompressing or unpacking the archive failed part-way.
    ArchiveCorrupt { path: String },
    /// The staging or version directory could not be created or replaced.
    DestinationUnwritable { path: String },
    /// The temporary link could not be created or renamed over `current`.
    ActivationFailed { path: String },
    /// Fewer than two version directories exist, so there is nothing to roll back to.
    NotEnoughVersions,
    /// The version asked for is not installed under the versions root `root`;
    /// `available` lists what is, sorted.
    VersionNotFound { root: String, requested: String, available: Vec<String> },
    /// A version directory that a prune pass could not delete; the pass goes on.
    PruneSkipped { path: String },
    /// The remote metadata reported a version that is not SemVer.
    RemoteVersionUnparsable { version: String },
}

/// The names separated by `, `.
pub open spec fn comma_list(s: Seq<String>) -> Seq<char>
    decreases s.len(),
{
    if s.len() == 0 {
        Seq::empty()
    } else if s.len() == 1 {
        s[0]@
    } else {
        comma_list(s.drop_last()) + ", "@ + s.last()@
    }
}

/// The available versions as an error message lists them.
pub open spec fn available_text(s: Seq<String>) -> Seq<char> {
    if s.len() == 0 {
        "<none>"@
    } else {
        comma_list(s)
    }
}

/// The text of an error, naming the path or version concerned.
pub open spec fn message_text(e: ManagerError) -> Seq<char> {
    match e {
        ManagerError::ArchiveUnreadable { path } => "cannot open archive "@ + path@,
        ManagerError::ArchiveCorrupt { path } => "cannot unpack archive "@ + path@,
        ManagerError::DestinationUnwritable { path } => "cannot write "@ + path@,
        ManagerError::ActivationFailed { path } => "cannot switch the link "@ + path@,
        ManagerError::NotEnoughVersions => "no previous version to roll back to"@,
        ManagerError::VersionNotFound { root, requested, available } => "version '"@ + requested@
            + "' not found under "@ + root@ + ".\nAvailable: "@ + available_text(available@),
        ManagerError::PruneSkipped { path } => "could not prune "@ + path@,
        ManagerError::RemoteVersionUnparsable { version } => "cannot parse remote version "@
            + version@,
    }
}

/// Joins names with `, `.
pub fn join_names(names: &Vec<String>) -> (r: String)
    ensures
        r@ == comma_list(names@),
{
    let mut s = String::new();
    let n = names.len();
    let mut i: usize = 0;
    while i < n
        invariant
            n == names@.len(),
            0 <= i <= n,
            s@ == comma_list(names@.subrange(0, i as int)),
        decreases n - i,
    {
        let ghost pre = names@.subrange(0, i as int);
        let ghost next = names@.subrange(0, i as int + 1);
        assert(next.drop_last() =~= pre);
        if i > 0 {
            s.append(", ");
        }
        s.append(names[i].as_str());
        proof {
            if i == 0 {
                assert(s@ =~= comma_list(next));
            } else {
                assert(s@ =~= comma_list(next));
            }
        }
        i = i + 1;
    }
    assert(names@.subrange(0, n as int) =~= names@);
    s
}

impl ManagerError {
    /// The error as a user reads it.
    pub fn message(&self) -> (r: String)
        ensures
            r@ == message_text(*self),
    {
        match self {
            ManagerError::ArchiveUnreadable { path } => String::from_str("cannot open archive ").concat(
                path.as_str(),
            ),
            ManagerError::ArchiveCorrupt { path } => String::from_str("cannot unpack archive ").concat(
                path.as_str(),
            ),
            ManagerError::DestinationUnwritable { path } => String::from_str("cannot write ").concat(
                path.as_str(),
            ),
            ManagerError::ActivationFailed { path } => String::from_str("cannot switch the link ").concat(
                path.as_str(),
            ),
            ManagerError::NotEnoughVersions => String::from_str("no previous version to roll back to"),
            ManagerError::PruneSkipped { path } => String::from_str("could not prune ").concat(
                path.as_str(),
            ),
            ManagerError::VersionNotFound { root, requested, available } => {
                let mut s = String::from_str("version '");
                s.append(requested.as_str());
                s.append("' not found under ");
                s.append(root.as_str());
                s.append(".\nAvailable: ");
                if available.len() == 0 {
                    s.append("<none>");
                } else {
                    let list = join_names(available);
                    s.append(list.as_str());
                }
                s
            },
            ManagerError::RemoteVersionUnparsable { version } => String::from_str(
                "cannot parse remote version ",
            ).concat(version.as_str()),
        }
    }
}

} // verus!
