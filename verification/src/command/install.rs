//! `install`: patch the preference files of the profiles, fetch the theme
//! into the cache unless it lies there already, and link it into each
//! profile.

use vstd::prelude::*;
use vstd::string::StringExecFns;
use crate::command::{refusal, Action, ActionView, Event, EventView};
use crate::error::Error;
use crate::path::joined_all;
use crate::profile::{
    chrome_path_of, prefs_path_of, prefs_update_of, profiles_view, registry_path_of,
    registry_profiles, select_profiles, selected, Config, ConfigView, Profile, ProfileView,
};
use crate::repo::{parent_of, repo_view, resolve, resolved, url_parts, Repo, RepoView};

verus! {

/// What `install` is asked for: the theme, in short or as a URL, and the
/// name of the one profile to install it for, if not for all.
#[derive(Debug, PartialEq, Eq)]
pub struct Options {
    pub repo: String,
    pub profile: Option<String>,
}

/// The options of `install` as contracts see them.
pub struct OptionsView {
    pub repo: Seq<char>,
    pub profile: Option<Seq<char>>,
}

impl View for Options {
    type V = OptionsView;

    open spec fn view(&self) -> OptionsView {
        OptionsView { repo: self.repo@, profile: self.profile.deep_view() }
    }
}

/// How far an installation has come: what it is waiting to be told of.
#[derive(Clone, Copy, Debug, PartialEq, Eq, Structural)]
pub enum Stage {
    /// The text of the profile registry.
    Registry,
    /// The preference file of the profile at `index`.
    Prefs { index: usize },
    /// The backup of that preference file being written.
    Backup { index: usize },
    /// The new preference file being written.
    Patch { index: usize },
    /// Whether the theme lies in the cache.
    Probe,
    /// The directory for the theme being created.
    Prepare,
    /// The theme being fetched.
    Fetch,
    /// The report of the fetch being shown.
    Fetched,
    /// The old link of the profile at `index` being cleared away.
    Unlink { index: usize },
    /// The link for that profile being made.
    Symlink { index: usize },
    /// The theme being copied into that profile, in place of a link.
    Copy { index: usize },
    /// The report for that profile being shown.
    Linked { index: usize },
    /// Nothing: the installation has ended.
    Closed,
}

/// An installation under way.
#[derive(Debug, PartialEq, Eq)]
pub struct Install {
    pub options: Options,
    pub config: Config,
    /// The profiles to install for; known once the registry is read.
    pub profiles: Vec<Profile>,
    /// The theme that the options name, or why they name none.
    pub repo: Result<Repo, Error>,
    /// The new content of the preference file whose backup is being written.
    pub pending: String,
    pub stage: Stage,
}

/// An installation as contracts see it.
pub struct InstallView {
    pub options: OptionsView,
    pub config: ConfigView,
    pub profiles: Seq<ProfileView>,
    pub repo: Result<RepoView, Error>,
    pub pending: Seq<char>,
    pub stage: Stage,
}

impl View for Install {
    type V = InstallView;

    open spec fn view(&self) -> InstallView {
        InstallView {
            options: self.options@,
            config: self.config@,
            profiles: self.profiles.deep_view(),
            repo: repo_view(self.repo),
            pending: self.pending@,
            stage: self.stage,
        }
    }
}

/// Whether what a stage relies on is there: the profile it names, and the
/// theme from the probe onwards.
pub open spec fn well_formed(s: InstallView) -> bool {
    match s.stage {
        Stage::Registry | Stage::Closed => true,
        Stage::Prefs { index } | Stage::Backup { index } | Stage::Patch { index } => index
            < s.profiles.len(),
        Stage::Probe | Stage::Prepare | Stage::Fetch | Stage::Fetched => s.repo is Ok,
        Stage::Unlink { index }
        | Stage::Symlink { index }
        | Stage::Copy { index }
        | Stage::Linked { index } => s.repo is Ok && index < s.profiles.len(),
    }
}

/// Whether a stage belongs to the linking of the theme into the profiles,
/// or lies after it.
pub open spec fn is_linking(stage: Stage) -> bool {
    stage is Unlink || stage is Symlink || stage is Copy || stage is Linked || stage is Closed
}

/// The installation at another stage.
pub open spec fn at(s: InstallView, stage: Stage) -> InstallView {
    InstallView { stage, ..s }
}

/// The installation as it begins, for the theme that the options name or
/// the reason why they name none: no profile is known yet, the registry is
/// awaited.
pub open spec fn begun(
    options: OptionsView,
    config: ConfigView,
    repo: Result<RepoView, Error>,
) -> InstallView {
    InstallView {
        options,
        config,
        profiles: Seq::empty(),
        repo,
        pending: Seq::empty(),
        stage: Stage::Registry,
    }
}

/// The installation gives up.
pub open spec fn abort(s: InstallView, error: Error) -> (InstallView, ActionView) {
    (at(s, Stage::Closed), ActionView::Abort { error })
}

/// The place of the theme in the cache.
pub open spec fn local_path_of(s: InstallView) -> Seq<char> {
    joined_all(s.config.data_dir, s.repo->Ok_0.segments)
}

/// The name under which the theme is reported.
pub open spec fn theme_name(s: InstallView) -> Seq<char> {
    joined_all(Seq::empty(), s.repo->Ok_0.segments)
}

/// The report of a fetch.
pub open spec fn fetched_line(s: InstallView) -> Seq<char> {
    theme_name(s) + ": clone ok"@
}

/// The report of the installation for one profile.
pub open spec fn linked_line(s: InstallView, index: int) -> Seq<char> {
    "install "@ + theme_name(s) + " for "@ + s.profiles[index].name
}

/// Turn to the link of the profile at `index`, or finish if there is none
/// left.
pub open spec fn enter_link(s: InstallView, index: usize) -> (InstallView, ActionView) {
    if index < s.profiles.len() {
        (
            at(s, Stage::Unlink { index }),
            ActionView::Unlink { path: chrome_path_of(s.config.home_dir, s.profiles[index as int]) },
        )
    } else {
        (at(s, Stage::Closed), ActionView::Finish)
    }
}

/// Turn to the theme: ask whether it lies in the cache, or give up if the
/// options name none.
pub open spec fn enter_probe(s: InstallView) -> (InstallView, ActionView) {
    match s.repo {
        Err(error) => abort(s, error),
        Ok(repo) => (at(s, Stage::Probe), ActionView::Probe { path: local_path_of(s) }),
    }
}

/// Turn to the preference file of the profile at `index`, or to the theme
/// if there is no profile left.
pub open spec fn enter_prefs(s: InstallView, index: usize) -> (InstallView, ActionView) {
    if index < s.profiles.len() {
        (
            at(s, Stage::Prefs { index }),
            ActionView::ReadPrefs { path: prefs_path_of(s.config.home_dir, s.profiles[index as int]) },
        )
    } else {
        enter_probe(s)
    }
}

/// The preference file of the profile at `index` holds `content`: write a
/// backup if it has to change, else go on.
pub open spec fn after_prefs(s: InstallView, index: usize, content: Seq<char>) -> (
    InstallView,
    ActionView,
) {
    match prefs_update_of(s.config.home_dir, s.profiles[index as int], content) {
        None => enter_prefs(s, (index + 1) as usize),
        Some(update) => (
            InstallView { pending: update.prefs, stage: Stage::Backup { index }, ..s },
            ActionView::WriteFile { path: update.backup_path, content: update.backup },
        ),
    }
}

/// The registry names the profiles `found`, or cannot be used: keep the
/// profiles asked for and turn to their preference files, or give up.
pub open spec fn with_profiles(s: InstallView, found: Result<Seq<ProfileView>, Error>) -> (
    InstallView,
    ActionView,
) {
    match found {
        Err(error) => abort(s, error),
        Ok(all) => enter_prefs(InstallView { profiles: selected(all, s.options.profile), ..s }, 0),
    }
}

/// What an installation does next: the stage it moves to and the work it
/// asks for, given the stage it is at and what it is told.
///
/// A missing preference file counts as an empty one. A theme that lies in
/// the cache is not fetched. A link that may not be made is replaced by a
/// copy. A failure ends the installation with the error of its stage: the
/// registry's, the version-control client's, or the file system's. What was
/// done before stays done.
pub open spec fn install_step(s: InstallView, e: EventView) -> (InstallView, ActionView) {
    if !well_formed(s) {
        abort(s, Error::Unexpected)
    } else {
        match s.stage {
            Stage::Registry => match e {
                EventView::Text { content } => with_profiles(s, registry_profiles(content)),
                _ => abort(s, refusal(e, Error::RegistryUnreadable)),
            },
            Stage::Prefs { index } => match e {
                EventView::Text { content } => after_prefs(s, index, content),
                EventView::Missing => after_prefs(s, index, Seq::empty()),
                _ => abort(s, refusal(e, Error::Filesystem)),
            },
            Stage::Backup { index } => match e {
                EventView::Done => (
                    at(s, Stage::Patch { index }),
                    ActionView::WriteFile {
                        path: prefs_path_of(s.config.home_dir, s.profiles[index as int]),
                        content: s.pending,
                    },
                ),
                _ => abort(s, refusal(e, Error::Filesystem)),
            },
            Stage::Patch { index } => match e {
                EventView::Done => enter_prefs(s, (index + 1) as usize),
                _ => abort(s, refusal(e, Error::Filesystem)),
            },
            Stage::Probe => match e {
                EventView::Exists { found } => if found {
                    enter_link(s, 0)
                } else {
                    (
                        at(s, Stage::Prepare),
                        ActionView::CreateDirs { path: parent_of(s.config.data_dir, s.repo->Ok_0.segments) },
                    )
                },
                _ => abort(s, refusal(e, Error::Filesystem)),
            },
            Stage::Prepare => match e {
                EventView::Done | EventView::Present => (
                    at(s, Stage::Fetch),
                    ActionView::Clone { url: s.repo->Ok_0.remote_url, path: local_path_of(s) },
                ),
                _ => abort(s, refusal(e, Error::Filesystem)),
            },
            Stage::Fetch => match e {
                EventView::Done => (at(s, Stage::Fetched), ActionView::Print { line: fetched_line(s) }),
                _ => abort(s, refusal(e, Error::Vcs)),
            },
            Stage::Fetched => match e {
                EventView::Done => enter_link(s, 0),
                _ => abort(s, refusal(e, Error::Filesystem)),
            },
            Stage::Unlink { index } => match e {
                EventView::Done | EventView::Missing => (
                    at(s, Stage::Symlink { index }),
                    ActionView::Symlink {
                        source: local_path_of(s),
                        link: chrome_path_of(s.config.home_dir, s.profiles[index as int]),
                    },
                ),
                _ => abort(s, refusal(e, Error::Filesystem)),
            },
            Stage::Symlink { index } => match e {
                EventView::Done => (
                    at(s, Stage::Linked { index }),
                    ActionView::Print { line: linked_line(s, index as int) },
                ),
                EventView::Denied => (
                    at(s, Stage::Copy { index }),
                    ActionView::CopyTree {
                        source: local_path_of(s),
                        target: chrome_path_of(s.config.home_dir, s.profiles[index as int]),
                    },
                ),
                _ => abort(s, refusal(e, Error::Filesystem)),
            },
            Stage::Copy { index } => match e {
                EventView::Done => (
                    at(s, Stage::Linked { index }),
                    ActionView::Print { line: linked_line(s, index as int) },
                ),
                _ => abort(s, refusal(e, Error::Filesystem)),
            },
            Stage::Linked { index } => match e {
                EventView::Done => enter_link(s, (index + 1) as usize),
                _ => abort(s, refusal(e, Error::Filesystem)),
            },
            Stage::Closed => abort(s, Error::Unexpected),
        }
    }
}

/// A theme that lies in the cache is not fetched, and that is no error:
/// told that the theme is there, an installation turns to the links at
/// once. It asks for no directory and no fetch, whatever the remote side
/// would have answered.
pub proof fn lemma_cached_theme_is_not_fetched(s: InstallView)
    requires
        well_formed(s),
        s.stage is Probe,
    ensures
        ({
            let next = install_step(s, EventView::Exists { found: true });
            &&& is_linking(next.0.stage)
            &&& next.1 is Unlink || next.1 is Finish
        }),
{
}

/// Once an installation links, it fetches no more: whatever it is told, it
/// stays with the links or ends, and asks neither for a directory nor for a
/// fetch.
pub proof fn lemma_linking_never_fetches(s: InstallView, e: EventView)
    requires
        is_linking(s.stage),
    ensures
        is_linking(install_step(s, e).0.stage),
        !(install_step(s, e).1 is Clone),
        !(install_step(s, e).1 is CreateDirs),
{
}

/// An installation that has ended stays ended: it asks for nothing more,
/// and whatever it is told comes unexpected.
pub proof fn lemma_closed_stays_closed(s: InstallView, e: EventView)
    requires
        s.stage is Closed,
    ensures
        install_step(s, e) == (s, ActionView::Abort { error: Error::Unexpected }),
{
}

/// A failure ends an installation at every stage: nothing is tried again
/// and nothing more is asked for.
pub proof fn lemma_failure_ends_installation(s: InstallView)
    ensures
        install_step(s, EventView::Failed).0.stage is Closed,
        install_step(s, EventView::Failed).1 is Abort,
{
}

impl Options {
    /// Begins an installation for a theme that has been worked out
    /// already, or that could not be: no profile is known yet, and the first
    /// thing asked for is the text of the profile registry. An error in
    /// `repo` ends the installation only when it turns to the theme, after
    /// the preference files.
    pub fn begin(self, config: &Config, repo: Result<Repo, Error>) -> (r: (Install, Action))
        ensures
            r.0@ == begun(self@, config@, repo_view(repo)),
            r.1@ == (ActionView::ReadRegistry { path: registry_path_of(config@.home_dir) }),
            well_formed(r.0@),
    {
        let action = Action::ReadRegistry { path: config.registry_path() };
        let install = Install {
            options: self,
            config: config.clone(),
            profiles: Vec::new(),
            repo,
            pending: String::new(),
            stage: Stage::Registry,
        };
        assert(install.profiles.deep_view() =~= Seq::empty());
        (install, action)
    }

    /// Begins an installation: works out which theme the options name and
    /// asks for the text of the profile registry.
    pub fn exec(self, config: &Config) -> (r: (Install, Action))
        ensures
            r.0@ == begun(self@, config@, resolved(self.repo@, url_parts(self.repo@))),
            r.1@ == (ActionView::ReadRegistry { path: registry_path_of(config@.home_dir) }),
            well_formed(r.0@),
    {
        let repo = resolve(self.repo.as_str());
        self.begin(config, repo)
    }
}

impl Install {
    /// Whether what the stage relies on is there.
    pub fn is_well_formed(&self) -> (r: bool)
        ensures
            r == well_formed(self@),
    {
        match self.stage {
            Stage::Registry | Stage::Closed => true,
            Stage::Prefs { index } | Stage::Backup { index } | Stage::Patch { index } => index
                < self.profiles.len(),
            Stage::Probe | Stage::Prepare | Stage::Fetch | Stage::Fetched => self.repo.is_ok(),
            Stage::Unlink { index }
            | Stage::Symlink { index }
            | Stage::Copy { index }
            | Stage::Linked { index } => self.repo.is_ok() && index < self.profiles.len(),
        }
    }

    /// Gives up with `error`.
    fn abort(self, error: Error) -> (r: (Install, Action))
        ensures
            (r.0@, r.1@) == abort(self@, error),
            well_formed(r.0@),
    {
        let mut next = self;
        next.stage = Stage::Closed;
        (next, Action::Abort { error })
    }

    /// Moves to `stage` and asks for `action`.
    fn go(self, stage: Stage, action: Action) -> (r: (Install, Action))
        ensures
            r.0@ == at(self@, stage),
            r.1 == action,
    {
        let mut next = self;
        next.stage = stage;
        (next, action)
    }

    /// The place of the theme in the cache.
    fn local_path(&self) -> (r: String)
        requires
            self@.repo is Ok,
        ensures
            r@ == local_path_of(self@),
    {
        match &self.repo {
            Ok(repo) => repo.local_path(self.config.data_dir.as_str()),
            Err(_) => String::new(),
        }
    }

    /// The name under which the theme is reported.
    fn theme_name(&self) -> (r: String)
        requires
            self@.repo is Ok,
        ensures
            r@ == theme_name(self@),
    {
        match &self.repo {
            Ok(repo) => repo.name(),
            Err(_) => String::new(),
        }
    }

    /// The report of the installation for the profile at `index`.
    fn linked_line(&self, index: usize) -> (r: String)
        requires
            self@.repo is Ok,
            index < self.profiles.len(),
        ensures
            r@ == linked_line(self@, index as int),
    {
        let mut line = "install ".to_owned();
        let name = self.theme_name();
        line.append(name.as_str());
        line.append(" for ");
        line.append(self.profiles[index].name.as_str());
        line
    }

    /// Turns to the link of the profile at `index`.
    fn enter_link(self, index: usize) -> (r: (Install, Action))
        requires
            self@.repo is Ok,
        ensures
            (r.0@, r.1@) == enter_link(self@, index),
            well_formed(r.0@),
    {
        if index < self.profiles.len() {
            let path = self.config.chrome_path(&self.profiles[index]);
            self.go(Stage::Unlink { index }, Action::Unlink { path })
        } else {
            self.go(Stage::Closed, Action::Finish)
        }
    }

    /// Turns to the theme.
    fn enter_probe(self) -> (r: (Install, Action))
        ensures
            (r.0@, r.1@) == enter_probe(self@),
            well_formed(r.0@),
    {
        match &self.repo {
            Ok(_) => {
                let path = self.local_path();
                self.go(Stage::Probe, Action::Probe { path })
            },
            Err(error) => {
                let error = *error;
                self.abort(error)
            },
        }
    }

    /// Turns to the preference file of the profile at `index`.
    fn enter_prefs(self, index: usize) -> (r: (Install, Action))
        ensures
            (r.0@, r.1@) == enter_prefs(self@, index),
            well_formed(r.0@),
    {
        if index < self.profiles.len() {
            let path = self.config.prefs_path(&self.profiles[index]);
            self.go(Stage::Prefs { index }, Action::ReadPrefs { path })
        } else {
            self.enter_probe()
        }
    }

    /// Deals with the content of the preference file of the profile at
    /// `index`.
    fn after_prefs(self, index: usize, content: &str) -> (r: (Install, Action))
        requires
            index < self.profiles.len(),
        ensures
            (r.0@, r.1@) == after_prefs(self@, index, content@),
            well_formed(r.0@),
    {
        match self.profiles[index].check_and_make_prefs(&self.config, content) {
            Some(update) => {
                let mut next = self;
                next.pending = update.prefs;
                next.stage = Stage::Backup { index };
                (next, Action::WriteFile { path: update.backup_path, content: update.backup })
            },
            None => self.enter_prefs(index + 1),
        }
    }

    /// Takes the profiles that the registry names, or the reason why it
    /// names none: keeps the profiles that the options ask for, all of them
    /// if they ask for none by name, and turns to the preference file of the
    /// first; gives up with the error if there is one.
    pub fn with_profiles(self, found: Result<Vec<Profile>, Error>) -> (r: (Install, Action))
        ensures
            (r.0@, r.1@) == with_profiles(self@, profiles_view(found)),
            well_formed(r.0@),
    {
        match found {
            Ok(all) => {
                let mut next = self;
                next.profiles = select_profiles(&all, &next.options.profile);
                next.enter_prefs(0)
            },
            Err(error) => self.abort(error),
        }
    }

    /// What the registry stage does.
    fn on_registry(self, event: Event) -> (r: (Install, Action))
        requires
            self.stage is Registry,
        ensures
            (r.0@, r.1@) == install_step(self@, event@),
            well_formed(r.0@),
    {
        match event {
            Event::Text { content } => {
                let found = self.config.profiles(content.as_str());
                self.with_profiles(found)
            },
            other => self.abort(other.refusal(Error::RegistryUnreadable)),
        }
    }

    /// What the stages of the preference files do.
    fn on_prefs(self, event: Event) -> (r: (Install, Action))
        requires
            well_formed(self@),
            self.stage is Prefs || self.stage is Backup || self.stage is Patch,
        ensures
            (r.0@, r.1@) == install_step(self@, event@),
            well_formed(r.0@),
    {
        match self.stage {
            Stage::Prefs { index } => match event {
                Event::Text { content } => self.after_prefs(index, content.as_str()),
                Event::Missing => {
                    proof {
                        reveal_strlit("");
                        assert(""@ =~= Seq::<char>::empty());
                    }
                    self.after_prefs(index, "")
                },
                other => self.abort(other.refusal(Error::Filesystem)),
            },
            Stage::Backup { index } => match event {
                Event::Done => {
                    let path = self.config.prefs_path(&self.profiles[index]);
                    let content = self.pending.clone();
                    self.go(Stage::Patch { index }, Action::WriteFile { path, content })
                },
                other => self.abort(other.refusal(Error::Filesystem)),
            },
            Stage::Patch { index } => match event {
                Event::Done => {
                    assert(index < self.profiles.len());
                    self.enter_prefs(index + 1)
                },
                other => self.abort(other.refusal(Error::Filesystem)),
            },
            _ => self.abort(Error::Unexpected),
        }
    }

    /// What the stages of the fetch do.
    fn on_fetch(self, event: Event) -> (r: (Install, Action))
        requires
            well_formed(self@),
            self.stage is Probe || self.stage is Prepare || self.stage is Fetch
                || self.stage is Fetched,
        ensures
            (r.0@, r.1@) == install_step(self@, event@),
            well_formed(r.0@),
    {
        let repo = match &self.repo {
            Ok(repo) => repo,
            Err(_) => return self.abort(Error::Unexpected),
        };
        match self.stage {
            Stage::Probe => match event {
                Event::Exists { found } => if found {
                    self.enter_link(0)
                } else {
                    let path = repo.parent_path(self.config.data_dir.as_str());
                    self.go(Stage::Prepare, Action::CreateDirs { path })
                },
                other => self.abort(other.refusal(Error::Filesystem)),
            },
            Stage::Prepare => match event {
                Event::Done | Event::Present => {
                    let url = repo.remote_url.clone();
                    let path = self.local_path();
                    self.go(Stage::Fetch, Action::Clone { url, path })
                },
                other => self.abort(other.refusal(Error::Filesystem)),
            },
            Stage::Fetch => match event {
                Event::Done => {
                    let mut line = self.theme_name();
                    line.append(": clone ok");
                    self.go(Stage::Fetched, Action::Print { line })
                },
                other => self.abort(other.refusal(Error::Vcs)),
            },
            Stage::Fetched => match event {
                Event::Done => self.enter_link(0),
                other => self.abort(other.refusal(Error::Filesystem)),
            },
            _ => self.abort(Error::Unexpected),
        }
    }

    /// What the stages of the linking do.
    fn on_link(self, event: Event) -> (r: (Install, Action))
        requires
            well_formed(self@),
            self.stage is Unlink || self.stage is Symlink || self.stage is Copy
                || self.stage is Linked,
        ensures
            (r.0@, r.1@) == install_step(self@, event@),
            well_formed(r.0@),
    {
        match self.stage {
            Stage::Unlink { index } => match event {
                Event::Done | Event::Missing => {
                    let source = self.local_path();
                    let link = self.config.chrome_path(&self.profiles[index]);
                    self.go(Stage::Symlink { index }, Action::Symlink { source, link })
                },
                other => self.abort(other.refusal(Error::Filesystem)),
            },
            Stage::Symlink { index } => match event {
                Event::Done => {
                    let line = self.linked_line(index);
                    self.go(Stage::Linked { index }, Action::Print { line })
                },
                Event::Denied => {
                    let source = self.local_path();
                    let target = self.config.chrome_path(&self.profiles[index]);
                    self.go(Stage::Copy { index }, Action::CopyTree { source, target })
                },
                other => self.abort(other.refusal(Error::Filesystem)),
            },
            Stage::Copy { index } => match event {
                Event::Done => {
                    let line = self.linked_line(index);
                    self.go(Stage::Linked { index }, Action::Print { line })
                },
                other => self.abort(other.refusal(Error::Filesystem)),
            },
            Stage::Linked { index } => match event {
                Event::Done => {
                    assert(index < self.profiles.len());
                    self.enter_link(index + 1)
                },
                other => self.abort(other.refusal(Error::Filesystem)),
            },
            _ => self.abort(Error::Unexpected),
        }
    }

    /// Takes what the installation is told and says what it does next:
    /// the stage it moves to and the work it asks for.
    pub fn next(self, event: Event) -> (r: (Install, Action))
        ensures
            (r.0@, r.1@) == install_step(self@, event@),
            well_formed(r.0@),
    {
        if !self.is_well_formed() {
            return self.abort(Error::Unexpected);
        }
        match self.stage {
            Stage::Registry => self.on_registry(event),
            Stage::Prefs { .. } | Stage::Backup { .. } | Stage::Patch { .. } => self.on_prefs(event),
            Stage::Probe | Stage::Prepare | Stage::Fetch | Stage::Fetched => self.on_fetch(event),
            Stage::Unlink { .. }
            | Stage::Symlink { .. }
            | Stage::Copy { .. }
            | Stage::Linked { .. } => self.on_link(event),
            Stage::Closed => self.abort(Error::Unexpected),
        }
    }
}

} // verus!
