//! The commands of the tool, each as a machine of its own.
//!
//! A command does no work on the file system and runs no client itself. It
//! names one piece of work at a time, an [`Action`], and is told how that
//! went by an [`Event`]; from the event it decides what comes next. Whoever
//! drives a command performs each action and reports back, until the
//! command names `Finish` or `Abort`.

pub mod install;
pub mod list;
pub mod uninstall;
pub mod update;

use vstd::prelude::*;
use crate::error::Error;
use crate::path::{relative_name, relative_to};
use crate::profile::{CacheEntry, CacheEntryView, Profile, ProfileView};

verus! {

/// How far below the cache root the themes lie: one level for the owner,
/// one for the name.
pub const CACHE_DEPTH: usize = 2;

/// One piece of work that a command asks for.
#[derive(Debug, PartialEq, Eq)]
pub enum Action {
    /// Read the profile registry at `path`.
    ReadRegistry { path: String },
    /// Read the preference file at `path`.
    ReadPrefs { path: String },
    /// Write `content` to the file at `path`, replacing what it held.
    WriteFile { path: String, content: String },
    /// Name what lies exactly `depth` levels below `root`, following links,
    /// and say of each entry whether it is a directory and whether the
    /// marker of the version-control client lies in it.
    ListCache { root: String, depth: usize },
    /// Say whether anything lies at `path`.
    Probe { path: String },
    /// Create the directory at `path` and those above it.
    CreateDirs { path: String },
    /// Have the version-control client fetch `url` into `path`.
    Clone { url: String, path: String },
    /// Have the version-control client bring `path` up to date.
    Pull { path: String },
    /// Clear away the link or file at `path`.
    Unlink { path: String },
    /// Make `link` a symbolic link to `source`.
    Symlink { source: String, link: String },
    /// Make `target` a directory and copy into it what `source` holds,
    /// leaving alone what `target` holds already.
    CopyTree { source: String, target: String },
    /// Remove the directory at `path` with all that it holds.
    RemoveTree { path: String },
    /// Show `line` to the user.
    Print { line: String },
    /// Show the profiles to the user.
    ShowProfiles { profiles: Vec<Profile> },
    /// Nothing is left to do: the command has succeeded.
    Finish,
    /// Nothing more will be done: the command has failed, or it had ended
    /// before it was told anything more.
    Abort { error: Error },
}

/// An action as contracts see it.
pub enum ActionView {
    ReadRegistry { path: Seq<char> },
    ReadPrefs { path: Seq<char> },
    WriteFile { path: Seq<char>, content: Seq<char> },
    ListCache { root: Seq<char>, depth: usize },
    Probe { path: Seq<char> },
    CreateDirs { path: Seq<char> },
    Clone { url: Seq<char>, path: Seq<char> },
    Pull { path: Seq<char> },
    Unlink { path: Seq<char> },
    Symlink { source: Seq<char>, link: Seq<char> },
    CopyTree { source: Seq<char>, target: Seq<char> },
    RemoveTree { path: Seq<char> },
    Print { line: Seq<char> },
    ShowProfiles { profiles: Seq<ProfileView> },
    Finish,
    Abort { error: Error },
}

impl View for Action {
    type V = ActionView;

    open spec fn view(&self) -> ActionView {
        match self {
            Action::ReadRegistry { path } => ActionView::ReadRegistry { path: path@ },
            Action::ReadPrefs { path } => ActionView::ReadPrefs { path: path@ },
            Action::WriteFile { path, content } => ActionView::WriteFile {
                path: path@,
                content: content@,
            },
            Action::ListCache { root, depth } => ActionView::ListCache {
                root: root@,
                depth: *depth,
            },
            Action::Probe { path } => ActionView::Probe { path: path@ },
            Action::CreateDirs { path } => ActionView::CreateDirs { path: path@ },
            Action::Clone { url, path } => ActionView::Clone { url: url@, path: path@ },
            Action::Pull { path } => ActionView::Pull { path: path@ },
            Action::Unlink { path } => ActionView::Unlink { path: path@ },
            Action::Symlink { source, link } => ActionView::Symlink { source: source@, link: link@ },
            Action::CopyTree { source, target } => ActionView::CopyTree {
                source: source@,
                target: target@,
            },
            Action::RemoveTree { path } => ActionView::RemoveTree { path: path@ },
            Action::Print { line } => ActionView::Print { line: line@ },
            Action::ShowProfiles { profiles } => ActionView::ShowProfiles {
                profiles: profiles.deep_view(),
            },
            Action::Finish => ActionView::Finish,
            Action::Abort { error } => ActionView::Abort { error: *error },
        }
    }
}

/// How the work that a command asked for went.
#[derive(Debug, PartialEq, Eq)]
pub enum Event {
    /// The file was read and held `content`.
    Text { content: String },
    /// These entries lie two levels below the cache root.
    Entries { entries: Vec<CacheEntry> },
    /// Whether anything lies at the path that was probed.
    Exists { found: bool },
    /// The work was done.
    Done,
    /// What was to be read or cleared away is not there.
    Missing,
    /// What was to be created is there already.
    Present,
    /// The system does not let this user do the work.
    Denied,
    /// The work failed in any other way.
    Failed,
}

/// An event as contracts see it.
pub enum EventView {
    Text { content: Seq<char> },
    Entries { entries: Seq<CacheEntryView> },
    Exists { found: bool },
    Done,
    Missing,
    Present,
    Denied,
    Failed,
}

impl View for Event {
    type V = EventView;

    open spec fn view(&self) -> EventView {
        match self {
            Event::Text { content } => EventView::Text { content: content@ },
            Event::Entries { entries } => EventView::Entries { entries: entries.deep_view() },
            Event::Exists { found } => EventView::Exists { found: *found },
            Event::Done => EventView::Done,
            Event::Missing => EventView::Missing,
            Event::Present => EventView::Present,
            Event::Denied => EventView::Denied,
            Event::Failed => EventView::Failed,
        }
    }
}

/// Whether an event tells of work that was not done.
pub open spec fn is_failure(e: EventView) -> bool {
    e is Failed || e is Missing || e is Present || e is Denied
}

/// The error with which a command ends when it is told `e` and cannot go
/// on: `error`, that of the work it had asked for, if `e` tells of a
/// failure; `Unexpected` if `e` answers something it had not asked.
pub open spec fn refusal(e: EventView, error: Error) -> Error {
    if is_failure(e) {
        error
    } else {
        Error::Unexpected
    }
}

impl Event {
    /// The error with which a command ends when it is told this event and
    /// cannot go on.
    pub fn refusal(&self, error: Error) -> (r: Error)
        ensures
            r == refusal(self@, error),
    {
        match self {
            Event::Failed | Event::Missing | Event::Present | Event::Denied => error,
            _ => Error::Unexpected,
        }
    }
}

/// The name under which a cached theme is reported where a name is owed:
/// its path as seen from the cache root, or its whole path if it does not
/// lie below that root.
pub open spec fn shown_name(path: Seq<char>, root: Seq<char>) -> Seq<char> {
    match relative_to(path, root) {
        Some(name) => name,
        None => path,
    }
}

/// The name under which a cached theme is reported where a name is owed.
pub fn report_name(path: &str, root: &str) -> (r: String)
    ensures
        r@ == shown_name(path@, root@),
{
    match relative_name(path, root) {
        Some(name) => name,
        None => path.to_owned(),
    }
}

} // verus!
