//! `list`: show the cached themes, or the profiles of the registry.

use vstd::prelude::*;
use crate::command::{refusal, Action, ActionView, Event, EventView, CACHE_DEPTH};
use crate::path::{relative_name, relative_to};
use crate::error::Error;
use crate::profile::{
    profiles_view, registry_path_of, registry_profiles, repos_among, Config, ConfigView, Profile,
    ProfileView,
};

verus! {

/// What `list` is asked for: the profiles, or else the themes.
#[derive(Debug, PartialEq, Eq)]
pub struct Options {
    pub profile: bool,
}

/// How far a listing has come: what it is waiting to be told of.
#[derive(Clone, Copy, Debug, PartialEq, Eq, Structural)]
pub enum Stage {
    /// The text of the profile registry.
    Registry,
    /// The profiles being shown.
    Profiles,
    /// What lies in the cache.
    Listing,
    /// The theme at `index` being shown.
    Show { index: usize },
    /// Nothing: the listing has ended.
    Closed,
}

/// A listing under way.
#[derive(Debug, PartialEq, Eq)]
pub struct List {
    pub config: Config,
    /// The themes to show; known once the cache is listed.
    pub repos: Vec<String>,
    pub stage: Stage,
}

/// A listing as contracts see it.
pub struct ListView {
    pub config: ConfigView,
    pub repos: Seq<Seq<char>>,
    pub stage: Stage,
}

impl View for List {
    type V = ListView;

    open spec fn view(&self) -> ListView {
        ListView { config: self.config@, repos: self.repos.deep_view(), stage: self.stage }
    }
}

/// Whether the theme that a stage names is there.
pub open spec fn well_formed(s: ListView) -> bool {
    match s.stage {
        Stage::Show { index } => index < s.repos.len(),
        _ => true,
    }
}

/// The listing at another stage.
pub open spec fn at(s: ListView, stage: Stage) -> ListView {
    ListView { stage, ..s }
}

/// The listing as it begins: it asks for the registry if the profiles
/// are wanted, else for what lies in the cache.
pub open spec fn begun(profile: bool, config: ConfigView) -> (ListView, ActionView) {
    if profile {
        (
            ListView { config, repos: Seq::empty(), stage: Stage::Registry },
            ActionView::ReadRegistry { path: registry_path_of(config.home_dir) },
        )
    } else {
        (
            ListView { config, repos: Seq::empty(), stage: Stage::Listing },
            ActionView::ListCache { root: config.data_dir, depth: CACHE_DEPTH },
        )
    }
}

/// The listing gives up.
pub open spec fn abort(s: ListView, error: Error) -> (ListView, ActionView) {
    (at(s, Stage::Closed), ActionView::Abort { error })
}

/// The registry names the profiles `found`, or cannot be used: show them
/// all, or give up.
pub open spec fn with_profiles(s: ListView, found: Result<Seq<ProfileView>, Error>) -> (
    ListView,
    ActionView,
) {
    match found {
        Err(error) => abort(s, error),
        Ok(profiles) => (at(s, Stage::Profiles), ActionView::ShowProfiles { profiles }),
    }
}

/// Turn to the theme at `index`, or finish if there is none left. A theme
/// is shown by its path as seen from the cache root; one that does not lie
/// below that root ends the listing.
pub open spec fn enter_show(s: ListView, index: usize) -> (ListView, ActionView) {
    if index < s.repos.len() {
        match relative_to(s.repos[index as int], s.config.data_dir) {
            Some(name) => (at(s, Stage::Show { index }), ActionView::Print { line: name }),
            None => abort(s, Error::Filesystem),
        }
    } else {
        (at(s, Stage::Closed), ActionView::Finish)
    }
}

/// What a listing does next. Of profiles it shows all that the registry
/// names, at once; of themes it shows those of the cache, one line each, in
/// the order in which they were found.
pub open spec fn list_step(s: ListView, e: EventView) -> (ListView, ActionView) {
    if !well_formed(s) {
        abort(s, Error::Unexpected)
    } else {
        match s.stage {
            Stage::Registry => match e {
                EventView::Text { content } => with_profiles(s, registry_profiles(content)),
                _ => abort(s, refusal(e, Error::RegistryUnreadable)),
            },
            Stage::Profiles => match e {
                EventView::Done => (at(s, Stage::Closed), ActionView::Finish),
                _ => abort(s, refusal(e, Error::Filesystem)),
            },
            Stage::Listing => match e {
                EventView::Entries { entries } => enter_show(
                    ListView { repos: repos_among(entries), ..s },
                    0,
                ),
                _ => abort(s, refusal(e, Error::Filesystem)),
            },
            Stage::Show { index } => match e {
                EventView::Done => enter_show(s, (index + 1) as usize),
                _ => abort(s, refusal(e, Error::Filesystem)),
            },
            Stage::Closed => abort(s, Error::Unexpected),
        }
    }
}

/// A cache that holds no theme is listed without a line: the listing is
/// told of no entries and finishes at once.
pub proof fn lemma_empty_cache_lists_nothing(s: ListView)
    requires
        s.stage is Listing,
    ensures
        list_step(s, EventView::Entries { entries: Seq::empty() }).1 is Finish,
{
}

/// A failure ends a listing at every stage: nothing is tried again and
/// nothing more is asked for.
pub proof fn lemma_failure_ends_listing(s: ListView)
    ensures
        list_step(s, EventView::Failed).0.stage is Closed,
        list_step(s, EventView::Failed).1 is Abort,
{
}

impl Options {
    /// Begins a listing.
    pub fn exec(self, config: &Config) -> (r: (List, Action))
        ensures
            (r.0@, r.1@) == begun(self.profile, config@),
            well_formed(r.0@),
    {
        let mut list = List { config: config.clone(), repos: Vec::new(), stage: Stage::Listing };
        assert(list.repos.deep_view() =~= Seq::empty());
        if self.profile {
            list.stage = Stage::Registry;
            (list, Action::ReadRegistry { path: config.registry_path() })
        } else {
            (list, Action::ListCache { root: config.data_dir.clone(), depth: CACHE_DEPTH })
        }
    }
}

impl List {
    /// Whether what the stage relies on is there.
    pub fn is_well_formed(&self) -> (r: bool)
        ensures
            r == well_formed(self@),
    {
        match self.stage {
            Stage::Show { index } => index < self.repos.len(),
            _ => true,
        }
    }

    /// Gives up with `error`.
    fn abort(self, error: Error) -> (r: (List, Action))
        ensures
            (r.0@, r.1@) == abort(self@, error),
            well_formed(r.0@),
    {
        let mut next = self;
        next.stage = Stage::Closed;
        (next, Action::Abort { error })
    }

    /// Takes the profiles that the registry names, or the reason why it
    /// names none: shows them all, or gives up with the error.
    pub fn with_profiles(self, found: Result<Vec<Profile>, Error>) -> (r: (List, Action))
        ensures
            (r.0@, r.1@) == with_profiles(self@, profiles_view(found)),
            well_formed(r.0@),
    {
        match found {
            Ok(profiles) => {
                let mut next = self;
                next.stage = Stage::Profiles;
                (next, Action::ShowProfiles { profiles })
            },
            Err(error) => self.abort(error),
        }
    }

    /// Turns to the theme at `index`.
    fn enter_show(self, index: usize) -> (r: (List, Action))
        ensures
            (r.0@, r.1@) == enter_show(self@, index),
            well_formed(r.0@),
    {
        let mut next = self;
        if index < next.repos.len() {
            match relative_name(next.repos[index].as_str(), next.config.data_dir.as_str()) {
                Some(line) => {
                    next.stage = Stage::Show { index };
                    (next, Action::Print { line })
                },
                None => next.abort(Error::Filesystem),
            }
        } else {
            next.stage = Stage::Closed;
            (next, Action::Finish)
        }
    }

    /// Takes what the listing is told and says what it does next: the
    /// stage it moves to and the work it asks for.
    pub fn next(self, event: Event) -> (r: (List, Action))
        ensures
            (r.0@, r.1@) == list_step(self@, event@),
            well_formed(r.0@),
    {
        if !self.is_well_formed() {
            return self.abort(Error::Unexpected);
        }
        match self.stage {
            Stage::Registry => match event {
                Event::Text { content } => {
                    let found = self.config.profiles(content.as_str());
                    self.with_profiles(found)
                },
                other => self.abort(other.refusal(Error::RegistryUnreadable)),
            },
            Stage::Profiles => match event {
                Event::Done => {
                    let mut next = self;
                    next.stage = Stage::Closed;
                    (next, Action::Finish)
                },
                other => self.abort(other.refusal(Error::Filesystem)),
            },
            Stage::Listing => match event {
                Event::Entries { entries } => {
                    let cached = self.config.repos(&entries);
                    let mut next = self;
                    next.repos = cached;
                    next.enter_show(0)
                },
                other => self.abort(other.refusal(Error::Filesystem)),
            },
            Stage::Show { index } => match event {
                Event::Done => {
                    assert(index < self.repos.len());
                    self.enter_show(index + 1)
                },
                other => self.abort(other.refusal(Error::Filesystem)),
            },
            Stage::Closed => self.abort(Error::Unexpected),
        }
    }
}

} // verus!
