//! Management of third-party interface themes for browser profiles.
//!
//! The library holds the decisions of the tool: how a preference file is
//! scanned and patched, how a theme identifier becomes a remote address and a
//! place in the local cache, which profiles a registry names, and in which
//! order each command asks for work on the file system and the
//! version-control client.

pub mod command;
pub mod error;
pub mod git;
pub mod link;
pub mod path;
pub mod prefs;
pub mod profile;
pub mod repo;
pub mod text;
