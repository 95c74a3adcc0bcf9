//! `update`: bring the cached themes up to date, all of them or those
//! that a name picks.

use vstd::prelude::*;
use vstd::string::StringExecFns;
use crate::command::{
    refusal, report_name, shown_name, Action, ActionView, Event, EventView, CACHE_DEPTH,
};
use crate::error::Error;
use crate::profile::{repos_among, Config, ConfigView};
use crate::repo::{repos_ending, select_repos};

verus! {

/// What `update` is asked for: the last segments of the themes to bring up
/// to date, if not all.
#[derive(Debug, PartialEq, Eq)]
pub struct Options {
    pub repo: Option<String>,
}

/// The options of `update` as contracts see them.
pub struct OptionsView {
    pub repo: Option<Seq<char>>,
}

impl View for Options {
    type V = OptionsView;

    open spec fn view(&self) -> OptionsView {
        OptionsView { repo: self.repo.deep_view() }
    }
}

/// How far an update has come: what it is waiting to be told of.
#[derive(Clone, Copy, Debug, PartialEq, Eq, Structural)]
pub enum Stage {
    /// What lies in the cache.
    Listing,
    /// The theme at `index` being brought up to date.
    Pull { index: usize },
    /// The report for that theme being shown.
    Pulled { index: usize },
    /// Nothing: the update has ended.
    Closed,
}

/// An update under way.
#[derive(Debug, PartialEq, Eq)]
pub struct Update {
    pub options: Options,
    pub config: Config,
    /// The themes to bring up to date; known once the cache is listed.
    pub repos: Vec<String>,
    pub stage: Stage,
}

/// An update as contracts see it.
pub struct UpdateView {
    pub options: OptionsView,
    pub config: ConfigView,
    pub repos: Seq<Seq<char>>,
    pub stage: Stage,
}

impl View for Update {
    type V = UpdateView;

    open spec fn view(&self) -> UpdateView {
        UpdateView {
            options: self.options@,
            config: self.config@,
            repos: self.repos.deep_view(),
            stage: self.stage,
        }
    }
}

/// Whether the theme that a stage names is there.
pub open spec fn well_formed(s: UpdateView) -> bool {
    match s.stage {
        Stage::Listing | Stage::Closed => true,
        Stage::Pull { index } | Stage::Pulled { index } => index < s.repos.len(),
    }
}

/// The update at another stage.
pub open spec fn at(s: UpdateView, stage: Stage) -> UpdateView {
    UpdateView { stage, ..s }
}

/// The update as it begins: the cache is yet to be listed.
pub open spec fn begun(options: OptionsView, config: ConfigView) -> UpdateView {
    UpdateView { options, config, repos: Seq::empty(), stage: Stage::Listing }
}

/// The update gives up.
pub open spec fn abort(s: UpdateView, error: Error) -> (UpdateView, ActionView) {
    (at(s, Stage::Closed), ActionView::Abort { error })
}

/// The report for the theme at `index`.
pub open spec fn pulled_line(s: UpdateView, index: int) -> Seq<char> {
    shown_name(s.repos[index], s.config.data_dir) + ": update ok"@
}

/// Turn to the theme at `index`, or finish if there is none left.
pub open spec fn enter_pull(s: UpdateView, index: usize) -> (UpdateView, ActionView) {
    if index < s.repos.len() {
        (at(s, Stage::Pull { index }), ActionView::Pull { path: s.repos[index as int] })
    } else {
        (at(s, Stage::Closed), ActionView::Finish)
    }
}

/// What an update does next. The themes are those of the cache whose path
/// ends with the segments asked for, or all of them; each is brought up to
/// date and reported in turn, and the first that fails ends the update.
pub open spec fn update_step(s: UpdateView, e: EventView) -> (UpdateView, ActionView) {
    if !well_formed(s) {
        abort(s, Error::Unexpected)
    } else {
        match s.stage {
            Stage::Listing => match e {
                EventView::Entries { entries } => enter_pull(
                    UpdateView { repos: repos_ending(repos_among(entries), s.options.repo), ..s },
                    0,
                ),
                _ => abort(s, refusal(e, Error::Filesystem)),
            },
            Stage::Pull { index } => match e {
                EventView::Done => (
                    at(s, Stage::Pulled { index }),
                    ActionView::Print { line: pulled_line(s, index as int) },
                ),
                _ => abort(s, refusal(e, Error::Vcs)),
            },
            Stage::Pulled { index } => match e {
                EventView::Done => enter_pull(s, (index + 1) as usize),
                _ => abort(s, refusal(e, Error::Filesystem)),
            },
            Stage::Closed => abort(s, Error::Unexpected),
        }
    }
}

/// A failure ends an update at every stage: nothing is tried again and
/// nothing more is asked for.
pub proof fn lemma_failure_ends_update(s: UpdateView)
    ensures
        update_step(s, EventView::Failed).0.stage is Closed,
        update_step(s, EventView::Failed).1 is Abort,
{
}

impl Options {
    /// Begins an update: the first thing asked for is what lies in the
    /// cache.
    pub fn exec(self, config: &Config) -> (r: (Update, Action))
        ensures
            r.0@ == begun(self@, config@),
            r.1@ == (ActionView::ListCache { root: config@.data_dir, depth: CACHE_DEPTH }),
            well_formed(r.0@),
    {
        let action = Action::ListCache { root: config.data_dir.clone(), depth: CACHE_DEPTH };
        let update = Update {
            options: self,
            config: config.clone(),
            repos: Vec::new(),
            stage: Stage::Listing,
        };
        assert(update.repos.deep_view() =~= Seq::empty());
        (update, action)
    }
}

impl Update {
    /// Whether what the stage relies on is there.
    pub fn is_well_formed(&self) -> (r: bool)
        ensures
            r == well_formed(self@),
    {
        match self.stage {
            Stage::Listing | Stage::Closed => true,
            Stage::Pull { index } | Stage::Pulled { index } => index < self.repos.len(),
        }
    }

    /// Gives up with `error`.
    fn abort(self, error: Error) -> (r: (Update, Action))
        ensures
            (r.0@, r.1@) == abort(self@, error),
            well_formed(r.0@),
    {
        let mut next = self;
        next.stage = Stage::Closed;
        (next, Action::Abort { error })
    }

    /// Turns to the theme at `index`.
    fn enter_pull(self, index: usize) -> (r: (Update, Action))
        ensures
            (r.0@, r.1@) == enter_pull(self@, index),
            well_formed(r.0@),
    {
        let mut next = self;
        if index < next.repos.len() {
            let path = next.repos[index].clone();
            next.stage = Stage::Pull { index };
            (next, Action::Pull { path })
        } else {
            next.stage = Stage::Closed;
            (next, Action::Finish)
        }
    }

    /// Takes what the update is told and says what it does next: the stage
    /// it moves to and the work it asks for.
    pub fn next(self, event: Event) -> (r: (Update, Action))
        ensures
            (r.0@, r.1@) == update_step(self@, event@),
            well_formed(r.0@),
    {
        if !self.is_well_formed() {
            return self.abort(Error::Unexpected);
        }
        match self.stage {
            Stage::Listing => match event {
                Event::Entries { entries } => {
                    let cached = self.config.repos(&entries);
                    let mut next = self;
                    next.repos = select_repos(&cached, &next.options.repo);
                    next.enter_pull(0)
                },
                other => self.abort(other.refusal(Error::Filesystem)),
            },
            Stage::Pull { index } => match event {
                Event::Done => {
                    let mut line = report_name(
                        self.repos[index].as_str(),
                        self.config.data_dir.as_str(),
                    );
                    line.append(": update ok");
                    let mut next = self;
                    next.stage = Stage::Pulled { index };
                    (next, Action::Print { line })
                },
                other => self.abort(other.refusal(Error::Vcs)),
            },
            Stage::Pulled { index } => match event {
                Event::Done => {
                    assert(index < self.repos.len());
                    self.enter_pull(index + 1)
                },
                other => self.abort(other.refusal(Error::Filesystem)),
            },
            Stage::Closed => self.abort(Error::Unexpected),
        }
    }
}

} // verus!
