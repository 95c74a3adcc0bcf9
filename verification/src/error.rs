//! The ways in which a command can fail.

use vstd::prelude::*;

verus! {

/// Why a command stopped before its end.
#[derive(Clone, Copy, Debug, PartialEq, Eq, Structural)]
pub enum Error {
    /// The home or the data directory of the user could not be found.
    ConfigNotFound,
    /// The profile registry is missing or cannot be read.
    RegistryUnreadable,
    /// The profile registry names no profile.
    EmptyResult,
    /// The version-control client could not be run, or it failed.
    Vcs,
    /// Work on the file system failed, other than by not finding what was
    /// to be cleared away.
    Filesystem,
    /// A command was given neither a theme nor the word to take them all.
    InvalidArgs,
    /// A theme identifier names no place below the cache, or one outside it.
    InvalidRepo,
    /// The command was told of something it had not asked for.
    Unexpected,
}

/// The text shown for each error.
pub open spec fn message_of(error: Error) -> Seq<char> {
    match error {
        Error::ConfigNotFound => "Unable to retrieve user home or project path from system"@,
        Error::RegistryUnreadable => "Unable to read the profile registry"@,
        Error::EmptyResult => "No found any profile"@,
        Error::Vcs => "git failed"@,
        Error::Filesystem => "file system operation failed"@,
        Error::InvalidArgs => "nothing"@,
        Error::InvalidRepo => "theme name leaves the cache directory"@,
        Error::Unexpected => "unexpected event"@,
    }
}

impl Error {
    /// The text shown for this error.
    pub fn message(&self) -> (text: &'static str)
        ensures
            text@ == message_of(*self),
    {
        match self {
            Error::ConfigNotFound => "Unable to retrieve user home or project path from system",
            Error::RegistryUnreadable => "Unable to read the profile registry",
            Error::EmptyResult => "No found any profile",
            Error::Vcs => "git failed",
            Error::Filesystem => "file system operation failed",
            Error::InvalidArgs => "nothing",
            Error::InvalidRepo => "theme name leaves the cache directory",
            Error::Unexpected => "unexpected event",
        }
    }
}

} // verus!
