//! Userland version manager for a desktop application: installs versioned
//! builds under one root, activates one of them through a `current` link,
//! prunes old ones and rolls back.
//!
//! The library holds the decisions (which name a build gets, which
//! directories stay, which one a rollback picks, what the shim and the
//! desktop entry say); the caller performs the file-system work.

pub mod trusted;
pub mod text;
pub mod version;
pub mod error;
pub mod listing;
pub mod prune;
pub mod paths;
pub mod config;
pub mod shim;
pub mod remote;
pub mod cli;
pub mod install;
