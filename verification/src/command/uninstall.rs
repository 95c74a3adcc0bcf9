//! `uninstall`: remove cached themes, all of them or those that a name
//! picks.

use vstd::prelude::*;
use vstd::string::StringExecFns;
use crate::command::{
    refusal, report_name, shown_name, Action, ActionView, Event, EventView, CACHE_DEPTH,
};
use crate::error::Error;
use crate::profile::{repos_among, Config, ConfigView};
use crate::repo::{repos_ending, select_repos};

verus! {

/// What `uninstall` is asked for: the last segments of the themes to
/// remove, or the word to remove them all.
#[derive(Debug, PartialEq, Eq)]
pub struct Options {
    pub repo: Option<String>,
    pub all: bool,
}

/// The options of `uninstall` as contracts see them.
pub struct OptionsView {
    pub repo: Option<Seq<char>>,
    pub all: bool,
}

impl View for Options {
    type V = OptionsView;

    open spec fn view(&self) -> OptionsView {
        OptionsView { repo: self.repo.deep_view(), all: self.all }
    }
}

/// How far a removal has come: what it is waiting to be told of.
#[derive(Clone, Copy, Debug, PartialEq, Eq, Structural)]
pub enum Stage {
    /// What lies in the cache.
    Listing,
    /// The theme at `index` being removed.
    Remove { index: usize },
    /// The report for that theme being shown.
    Removed { index: usize },
    /// Nothing: the removal has ended.
    Closed,
}

/// A removal under way.
#[derive(Debug, PartialEq, Eq)]
pub struct Uninstall {
    pub options: Options,
    pub config: Config,
    /// The themes to remove; known once the cache is listed.
    pub repos: Vec<String>,
    pub stage: Stage,
}

/// A removal as contracts see it.
pub struct UninstallView {
    pub options: OptionsView,
    pub config: ConfigView,
    pub repos: Seq<Seq<char>>,
    pub stage: Stage,
}

impl View for Uninstall {
    type V = UninstallView;

    open spec fn view(&self) -> UninstallView {
        UninstallView {
            options: self.options@,
            config: self.config@,
            repos: self.repos.deep_view(),
            stage: self.stage,
        }
    }
}

/// Whether the theme that a stage names is there.
pub open spec fn well_formed(s: UninstallView) -> bool {
    match s.stage {
        Stage::Listing | Stage::Closed => true,
        Stage::Remove { index } | Stage::Removed { index } => index < s.repos.len(),
    }
}

/// The removal at another stage.
pub open spec fn at(s: UninstallView, stage: Stage) -> UninstallView {
    UninstallView { stage, ..s }
}

/// Whether the options name anything to remove.
pub open spec fn names_something(options: OptionsView) -> bool {
    options.repo is Some || options.all
}

/// The removal as it begins: the cache is yet to be listed, unless
/// nothing was named.
pub open spec fn begun(options: OptionsView, config: ConfigView) -> (UninstallView, ActionView) {
    if names_something(options) {
        (
            UninstallView { options, config, repos: Seq::empty(), stage: Stage::Listing },
            ActionView::ListCache { root: config.data_dir, depth: CACHE_DEPTH },
        )
    } else {
        (
            UninstallView { options, config, repos: Seq::empty(), stage: Stage::Closed },
            ActionView::Abort { error: Error::InvalidArgs },
        )
    }
}

/// The removal gives up.
pub open spec fn abort(s: UninstallView, error: Error) -> (UninstallView, ActionView) {
    (at(s, Stage::Closed), ActionView::Abort { error })
}

/// The themes that a removal takes from those of the cache: the ones whose
/// path ends with the segments asked for, or all of them where none are
/// given.
pub open spec fn targets(cached: Seq<Seq<char>>, options: OptionsView) -> Seq<Seq<char>> {
    repos_ending(cached, options.repo)
}

/// The report for the theme at `index`.
pub open spec fn removed_line(s: UninstallView, index: int) -> Seq<char> {
    shown_name(s.repos[index], s.config.data_dir) + ": remove ok"@
}

/// Turn to the theme at `index`, or finish if there is none left.
pub open spec fn enter_remove(s: UninstallView, index: usize) -> (UninstallView, ActionView) {
    if index < s.repos.len() {
        (at(s, Stage::Remove { index }), ActionView::RemoveTree { path: s.repos[index as int] })
    } else {
        (at(s, Stage::Closed), ActionView::Finish)
    }
}

/// What a removal does next. Each target is removed and reported in turn;
/// one that is gone already counts as removed, and the first that cannot be
/// removed ends the removal.
pub open spec fn uninstall_step(s: UninstallView, e: EventView) -> (UninstallView, ActionView) {
    if !well_formed(s) {
        abort(s, Error::Unexpected)
    } else {
        match s.stage {
            Stage::Listing => match e {
                EventView::Entries { entries } => enter_remove(
                    UninstallView { repos: targets(repos_among(entries), s.options), ..s },
                    0,
                ),
                _ => abort(s, refusal(e, Error::Filesystem)),
            },
            Stage::Remove { index } => match e {
                EventView::Done | EventView::Missing => (
                    at(s, Stage::Removed { index }),
                    ActionView::Print { line: removed_line(s, index as int) },
                ),
                _ => abort(s, refusal(e, Error::Filesystem)),
            },
            Stage::Removed { index } => match e {
                EventView::Done => enter_remove(s, (index + 1) as usize),
                _ => abort(s, refusal(e, Error::Filesystem)),
            },
            Stage::Closed => abort(s, Error::Unexpected),
        }
    }
}

/// Asked to remove all, with no name given, a removal takes every theme
/// that a listing of the cache shows, in the same order: none is left for a
/// listing that follows.
pub proof fn lemma_uninstall_all_takes_every_theme(cached: Seq<Seq<char>>, options: OptionsView)
    requires
        options.repo is None,
    ensures
        targets(cached, options) == cached,
    decreases cached.len(),
{
    if cached.len() > 0 {
        lemma_uninstall_all_takes_every_theme(cached.drop_last(), options);
        assert(cached.drop_last().push(cached.last()) =~= cached);
    }
}

/// A failure ends a removal at every stage: nothing is tried again and
/// nothing more is asked for.
pub proof fn lemma_failure_ends_removal(s: UninstallView)
    ensures
        uninstall_step(s, EventView::Failed).0.stage is Closed,
        uninstall_step(s, EventView::Failed).1 is Abort,
{
}

impl Options {
    /// Begins a removal: the first thing asked for is what lies in the
    /// cache. `InvalidArgs` at once if neither a name nor the word for all
    /// is given.
    pub fn exec(self, config: &Config) -> (r: (Uninstall, Action))
        ensures
            (r.0@, r.1@) == begun(self@, config@),
            well_formed(r.0@),
    {
        let named = self.repo.is_some() || self.all;
        let mut uninstall = Uninstall {
            options: self,
            config: config.clone(),
            repos: Vec::new(),
            stage: Stage::Listing,
        };
        assert(uninstall.repos.deep_view() =~= Seq::empty());
        if named {
            (uninstall, Action::ListCache { root: config.data_dir.clone(), depth: CACHE_DEPTH })
        } else {
            uninstall.stage = Stage::Closed;
            (uninstall, Action::Abort { error: Error::InvalidArgs })
        }
    }
}

impl Uninstall {
    /// Whether what the stage relies on is there.
    pub fn is_well_formed(&self) -> (r: bool)
        ensures
            r == well_formed(self@),
    {
        match self.stage {
            Stage::Listing | Stage::Closed => true,
            Stage::Remove { index } | Stage::Removed { index } => index < self.repos.len(),
        }
    }

    /// Gives up with `error`.
    fn abort(self, error: Error) -> (r: (Uninstall, Action))
        ensures
            (r.0@, r.1@) == abort(self@, error),
            well_formed(r.0@),
    {
        let mut next = self;
        next.stage = Stage::Closed;
        (next, Action::Abort { error })
    }

    /// Turns to the theme at `index`.
    fn enter_remove(self, index: usize) -> (r: (Uninstall, Action))
        ensures
            (r.0@, r.1@) == enter_remove(self@, index),
            well_formed(r.0@),
    {
        let mut next = self;
        if index < next.repos.len() {
            let path = next.repos[index].clone();
            next.stage = Stage::Remove { index };
            (next, Action::RemoveTree { path })
        } else {
            next.stage = Stage::Closed;
            (next, Action::Finish)
        }
    }

    /// Takes what the removal is told and says what it does next: the
    /// stage it moves to and the work it asks for.
    pub fn next(self, event: Event) -> (r: (Uninstall, Action))
        ensures
            (r.0@, r.1@) == uninstall_step(self@, event@),
            well_formed(r.0@),
    {
        if !self.is_well_formed() {
            return self.abort(Error::Unexpected);
        }
        match self.stage {
            Stage::Listing => match event {
                Event::Entries { entries } => {
                    let cached = self.config.repos(&entries);
                    let mut next = self;
                    next.repos = select_repos(&cached, &next.options.repo);
                    next.enter_remove(0)
                },
                other => self.abort(other.refusal(Error::Filesystem)),
            },
            Stage::Remove { index } => match event {
                Event::Done | Event::Missing => {
                    let mut line = report_name(
                        self.repos[index].as_str(),
                        self.config.data_dir.as_str(),
                    );
                    line.append(": remove ok");
                    let mut next = self;
                    next.stage = Stage::Removed { index };
                    (next, Action::Print { line })
                },
                other => self.abort(other.refusal(Error::Filesystem)),
            },
            Stage::Removed { index } => match event {
                Event::Done => {
                    assert(index < self.repos.len());
                    self.enter_remove(index + 1)
                },
                other => self.abort(other.refusal(Error::Filesystem)),
            },
            Stage::Closed => self.abort(Error::Unexpected),
        }
    }
}

} // verus!
