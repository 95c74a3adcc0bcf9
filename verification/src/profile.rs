//! Profiles: where the browser keeps them, how the registry names them, and
//! what the tool needs from each.

use vstd::prelude::*;
use vstd::slice::slice_subrange;
use crate::error::Error;
use crate::path::{join, joined};
use crate::prefs::{patch_prefs, patched};
use crate::text::{chars_of, same_text, starts_with, string_of};

verus! {

/// A named browser profile, with the path of its directory as the registry
/// gives it.
#[derive(Debug, PartialEq, Eq)]
pub struct Profile {
    pub name: String,
    pub path: String,
}

/// A profile as contracts see it.
pub struct ProfileView {
    pub name: Seq<char>,
    pub path: Seq<char>,
}

impl View for Profile {
    type V = ProfileView;

    open spec fn view(&self) -> ProfileView {
        ProfileView { name: self.name@, path: self.path@ }
    }
}

impl DeepView for Profile {
    type V = ProfileView;

    open spec fn deep_view(&self) -> ProfileView {
        self@
    }
}

impl Clone for Profile {
    fn clone(&self) -> (r: Profile)
        ensures
            r@ == self@,
    {
        Profile { name: self.name.clone(), path: self.path.clone() }
    }
}

/// One section of a registry: its name, if it has one, and its keys with
/// their values, in the order of the file.
#[derive(Debug, PartialEq, Eq)]
pub struct Section {
    pub name: Option<String>,
    pub entries: Vec<(String, String)>,
}

/// A section as contracts see it.
pub struct SectionView {
    pub name: Option<Seq<char>>,
    pub entries: Seq<(Seq<char>, Seq<char>)>,
}

impl View for Section {
    type V = SectionView;

    open spec fn view(&self) -> SectionView {
        SectionView { name: self.name.deep_view(), entries: self.entries.deep_view() }
    }
}

impl DeepView for Section {
    type V = SectionView;

    open spec fn deep_view(&self) -> SectionView {
        self@
    }
}

/// The sections that the INI reader finds in a text, or `None` where it
/// rejects the text.
pub uninterp spec fn ini_sections(text: Seq<char>) -> Option<Seq<SectionView>>;

/// Reads a text as an INI document with `ini::Ini::load_from_str` and hands
/// out what `Ini::iter` and `Properties::iter` yield: every section in the
/// order of the document, each with its name and its key-value pairs in
/// order. Nothing is claimed of the reader but that the same text always
/// gives the same sections.
#[verifier::external_body]
fn read_ini(text: &str) -> (r: Option<Vec<Section>>)
    ensures
        r.deep_view() == ini_sections(text@),
{
    match ini::Ini::load_from_str(text) {
        Ok(document) => Some(
            document.iter().map(
                |(name, properties)|
                    Section {
                        name: name.map(|n| n.to_owned()),
                        entries: properties.iter().map(|(k, v)| (k.to_owned(), v.to_owned())).collect(),
                    },
            ).collect(),
        ),
        Err(_) => None,
    }
}

/// The value that a section gives first for `key`: what the INI reader's
/// own lookup of a key returns.
pub open spec fn lookup(entries: Seq<(Seq<char>, Seq<char>)>, key: Seq<char>) -> Option<Seq<char>>
    decreases entries.len(),
{
    if entries.len() == 0 {
        None
    } else if entries[0].0 == key {
        Some(entries[0].1)
    } else {
        lookup(entries.drop_first(), key)
    }
}

/// The profile that a section describes: its name begins with `Profile`
/// and it gives both a `Name` and a `Path`.
pub open spec fn profile_of(section: SectionView) -> Option<ProfileView> {
    if section.name is Some && "Profile"@.is_prefix_of(section.name->0) && lookup(
        section.entries,
        "Name"@,
    ) is Some && lookup(section.entries, "Path"@) is Some {
        Some(
            ProfileView {
                name: lookup(section.entries, "Name"@)->0,
                path: lookup(section.entries, "Path"@)->0,
            },
        )
    } else {
        None
    }
}

/// The profiles that the sections describe, in the order of the sections.
pub open spec fn profiles_of(sections: Seq<SectionView>) -> Seq<ProfileView>
    decreases sections.len(),
{
    if sections.len() == 0 {
        Seq::empty()
    } else if profile_of(sections.last()) is Some {
        profiles_of(sections.drop_last()).push(profile_of(sections.last())->0)
    } else {
        profiles_of(sections.drop_last())
    }
}

/// What a parsed registry yields: its profiles, or `EmptyResult` if it
/// describes none.
pub open spec fn profiles_among(sections: Seq<SectionView>) -> Result<Seq<ProfileView>, Error> {
    if profiles_of(sections).len() == 0 {
        Err(Error::EmptyResult)
    } else {
        Ok(profiles_of(sections))
    }
}

/// A text without the byte-order mark that may stand at its head.
pub open spec fn unmarked(text: Seq<char>) -> Seq<char> {
    if text.len() > 0 && text[0] == '\u{feff}' {
        text.drop_first()
    } else {
        text
    }
}

/// What the text of a registry yields: `RegistryUnreadable` if the INI
/// reader rejects it, else the profiles of its sections.
pub open spec fn registry_profiles(text: Seq<char>) -> Result<Seq<ProfileView>, Error> {
    match ini_sections(unmarked(text)) {
        None => Err(Error::RegistryUnreadable),
        Some(sections) => profiles_among(sections),
    }
}

/// The profiles called `name`, or all of them where no name is given.
pub open spec fn selected(profiles: Seq<ProfileView>, name: Option<Seq<char>>) -> Seq<ProfileView>
    decreases profiles.len(),
{
    if profiles.len() == 0 {
        Seq::empty()
    } else if name is None || profiles.last().name == name->0 {
        selected(profiles.drop_last(), name).push(profiles.last())
    } else {
        selected(profiles.drop_last(), name)
    }
}

/// A list of profiles, or the error in its place, as contracts see it.
pub open spec fn profiles_view(r: Result<Vec<Profile>, Error>) -> Result<Seq<ProfileView>, Error> {
    match r {
        Ok(profiles) => Ok(profiles.deep_view()),
        Err(e) => Err(e),
    }
}

/// The value that a section gives first for `key`.
pub fn lookup_entry<'a>(entries: &'a Vec<(String, String)>, key: &str) -> (r: Option<&'a String>)
    ensures
        r.deep_view() == lookup(entries.deep_view(), key@),
{
    let ghost all = entries.deep_view();
    let mut i: usize = 0;
    proof {
        assert(all.skip(0) =~= all);
    }
    while i < entries.len()
        invariant
            i <= entries.len(),
            all == entries.deep_view(),
            lookup(all, key@) == lookup(all.skip(i as int), key@),
        decreases entries.len() - i,
    {
        proof {
            assert(all.skip(i as int)[0] == all[i as int]);
            assert(all.skip(i as int).drop_first() =~= all.skip(i + 1));
        }
        if same_text(entries[i].0.as_str(), key) {
            return Some(&entries[i].1);
        }
        i += 1;
    }
    None
}

/// The profile that a section describes, if it describes one.
pub fn profile_in(section: &Section) -> (r: Option<Profile>)
    ensures
        r.deep_view() == profile_of(section@),
{
    let marker = chars_of("Profile");
    let named = match &section.name {
        Some(n) => {
            let chars = chars_of(n.as_str());
            starts_with(chars.as_slice(), marker.as_slice())
        },
        None => false,
    };
    if !named {
        return None;
    }
    match (lookup_entry(&section.entries, "Name"), lookup_entry(&section.entries, "Path")) {
        (Some(name), Some(path)) => Some(Profile { name: name.clone(), path: path.clone() }),
        _ => None,
    }
}

/// The profiles of a parsed registry, in the order of its sections;
/// `EmptyResult` if it describes none.
pub fn profiles_from(sections: &Vec<Section>) -> (r: Result<Vec<Profile>, Error>)
    ensures
        profiles_view(r) == profiles_among(sections.deep_view()),
{
    let mut profiles: Vec<Profile> = Vec::new();
    let ghost all = sections.deep_view();
    let mut i: usize = 0;
    while i < sections.len()
        invariant
            i <= sections.len(),
            all == sections.deep_view(),
            profiles.deep_view() == profiles_of(all.take(i as int)),
        decreases sections.len() - i,
    {
        let ghost before = profiles.deep_view();
        proof {
            assert(all.take(i + 1).drop_last() =~= all.take(i as int));
            assert(all.take(i + 1).last() == sections[i as int]@);
        }
        match profile_in(&sections[i]) {
            Some(profile) => {
                profiles.push(profile);
                assert(profiles.deep_view() =~= before.push(profile@));
            },
            None => {},
        }
        i += 1;
    }
    assert(all.take(sections.len() as int) =~= all);
    if profiles.len() == 0 {
        Err(Error::EmptyResult)
    } else {
        Ok(profiles)
    }
}

/// A text without the byte-order mark that may stand at its head.
pub fn strip_mark(text: &str) -> (r: String)
    ensures
        r@ == unmarked(text@),
{
    let chars = chars_of(text);
    if chars.len() > 0 && chars[0] == '\u{feff}' {
        string_of(slice_subrange(chars.as_slice(), 1, chars.len()))
    } else {
        string_of(chars.as_slice())
    }
}

/// The profiles called `name`, in their order, or all of them where no
/// name is given.
pub fn select_profiles(profiles: &Vec<Profile>, name: &Option<String>) -> (r: Vec<Profile>)
    ensures
        r.deep_view() == selected(profiles.deep_view(), name.deep_view()),
{
    let mut kept: Vec<Profile> = Vec::new();
    let ghost all = profiles.deep_view();
    let mut i: usize = 0;
    while i < profiles.len()
        invariant
            i <= profiles.len(),
            all == profiles.deep_view(),
            kept.deep_view() == selected(all.take(i as int), name.deep_view()),
        decreases profiles.len() - i,
    {
        let ghost before = kept.deep_view();
        proof {
            assert(all.take(i + 1).drop_last() =~= all.take(i as int));
            assert(all.take(i + 1).last() == profiles[i as int]@);
        }
        let keep = match name {
            Some(wanted) => profiles[i].name == *wanted,
            None => true,
        };
        if keep {
            kept.push(profiles[i].clone());
            assert(kept.deep_view() =~= before.push(profiles[i as int]@));
        }
        i += 1;
    }
    assert(all.take(profiles.len() as int) =~= all);
    kept
}

/// Where the tool finds the user's files: the home directory, below which
/// the browser keeps its profiles, and the directory of the theme cache.
#[derive(Debug, PartialEq, Eq)]
pub struct Config {
    pub home_dir: String,
    pub data_dir: String,
}

/// A configuration as contracts see it.
pub struct ConfigView {
    pub home_dir: Seq<char>,
    pub data_dir: Seq<char>,
}

impl View for Config {
    type V = ConfigView;

    open spec fn view(&self) -> ConfigView {
        ConfigView { home_dir: self.home_dir@, data_dir: self.data_dir@ }
    }
}

impl Clone for Config {
    fn clone(&self) -> (r: Config)
        ensures
            r@ == self@,
    {
        Config { home_dir: self.home_dir.clone(), data_dir: self.data_dir.clone() }
    }
}

/// An entry found two levels below the cache root.
#[derive(Debug, PartialEq, Eq)]
pub struct CacheEntry {
    pub path: String,
    pub is_dir: bool,
    pub has_marker: bool,
}

/// A cache entry as contracts see it.
pub struct CacheEntryView {
    pub path: Seq<char>,
    pub is_dir: bool,
    pub has_marker: bool,
}

impl View for CacheEntry {
    type V = CacheEntryView;

    open spec fn view(&self) -> CacheEntryView {
        CacheEntryView { path: self.path@, is_dir: self.is_dir, has_marker: self.has_marker }
    }
}

impl DeepView for CacheEntry {
    type V = CacheEntryView;

    open spec fn deep_view(&self) -> CacheEntryView {
        self@
    }
}

/// What is to be written for a profile whose preference file lacks a
/// required setting: the old content under the backup's name, then the new
/// content under the file's own.
#[derive(Debug, PartialEq, Eq)]
pub struct PrefsUpdate {
    pub backup_path: String,
    pub backup: String,
    pub prefs_path: String,
    pub prefs: String,
}

/// A preference update as contracts see it.
pub struct PrefsUpdateView {
    pub backup_path: Seq<char>,
    pub backup: Seq<char>,
    pub prefs_path: Seq<char>,
    pub prefs: Seq<char>,
}

impl View for PrefsUpdate {
    type V = PrefsUpdateView;

    open spec fn view(&self) -> PrefsUpdateView {
        PrefsUpdateView {
            backup_path: self.backup_path@,
            backup: self.backup@,
            prefs_path: self.prefs_path@,
            prefs: self.prefs@,
        }
    }
}

impl DeepView for PrefsUpdate {
    type V = PrefsUpdateView;

    open spec fn deep_view(&self) -> PrefsUpdateView {
        self@
    }
}

/// The directory in which the browser keeps its registry and, by default,
/// its profiles.
pub open spec fn browser_dir(home_dir: Seq<char>) -> Seq<char> {
    joined(joined(home_dir, ".mozilla"@), "firefox"@)
}

/// The path of the profile registry.
pub open spec fn registry_path_of(home_dir: Seq<char>) -> Seq<char> {
    joined(browser_dir(home_dir), "profiles.ini"@)
}

/// The directory of a profile. A profile path that begins at the root
/// stands for itself.
pub open spec fn profile_dir(home_dir: Seq<char>, profile: ProfileView) -> Seq<char> {
    joined(browser_dir(home_dir), profile.path)
}

/// The place in a profile where the browser looks for a theme.
pub open spec fn chrome_path_of(home_dir: Seq<char>, profile: ProfileView) -> Seq<char> {
    joined(profile_dir(home_dir, profile), "chrome"@)
}

/// The preference file of a profile.
pub open spec fn prefs_path_of(home_dir: Seq<char>, profile: ProfileView) -> Seq<char> {
    joined(profile_dir(home_dir, profile), "prefs.js"@)
}

/// The file that keeps the former content of a preference file.
pub open spec fn backup_path_of(home_dir: Seq<char>, profile: ProfileView) -> Seq<char> {
    joined(profile_dir(home_dir, profile), "prefs-1.js"@)
}

/// Where the marker of the version-control client lies in a directory
/// that holds a theme.
pub open spec fn marker_path_of(dir: Seq<char>) -> Seq<char> {
    joined(dir, ".git"@)
}

/// The cached themes among the entries: the directories that hold the
/// marker of the version-control client, in the order of the entries.
pub open spec fn repos_among(entries: Seq<CacheEntryView>) -> Seq<Seq<char>>
    decreases entries.len(),
{
    if entries.len() == 0 {
        Seq::empty()
    } else if entries.last().is_dir && entries.last().has_marker {
        repos_among(entries.drop_last()).push(entries.last().path)
    } else {
        repos_among(entries.drop_last())
    }
}

/// What is to be written for a profile, given the content of its
/// preference file: nothing if the content is complete.
pub open spec fn prefs_update_of(home_dir: Seq<char>, profile: ProfileView, content: Seq<char>)
    -> Option<PrefsUpdateView> {
    match patched(content) {
        None => None,
        Some(prefs) => Some(
            PrefsUpdateView {
                backup_path: backup_path_of(home_dir, profile),
                backup: content,
                prefs_path: prefs_path_of(home_dir, profile),
                prefs,
            },
        ),
    }
}

/// Where the marker of the version-control client lies in a directory
/// that holds a theme.
pub fn marker_path(dir: &str) -> (r: String)
    ensures
        r@ == marker_path_of(dir@),
{
    join(dir, ".git")
}

impl Config {
    /// The configuration for the two directories that the system names;
    /// `ConfigNotFound` if it fails to name either of them.
    pub fn new(home_dir: Option<String>, data_dir: Option<String>) -> (r: Result<Config, Error>)
        ensures
            r is Ok <==> home_dir is Some && data_dir is Some,
            r matches Ok(c) ==> c.home_dir@ == home_dir->0@ && c.data_dir@ == data_dir->0@,
            r matches Err(e) ==> e == Error::ConfigNotFound,
    {
        match (home_dir, data_dir) {
            (Some(home_dir), Some(data_dir)) => Ok(Config { home_dir, data_dir }),
            _ => Err(Error::ConfigNotFound),
        }
    }

    /// The directory of the browser below the home directory.
    fn browser_dir(&self) -> (r: String)
        ensures
            r@ == browser_dir(self.home_dir@),
    {
        let mozilla = join(self.home_dir.as_str(), ".mozilla");
        join(mozilla.as_str(), "firefox")
    }

    /// The directory of a profile.
    fn profile_dir(&self, profile: &Profile) -> (r: String)
        ensures
            r@ == profile_dir(self.home_dir@, profile@),
    {
        let browser = self.browser_dir();
        join(browser.as_str(), profile.path.as_str())
    }

    /// The path of the profile registry.
    pub fn registry_path(&self) -> (r: String)
        ensures
            r@ == registry_path_of(self.home_dir@),
    {
        let browser = self.browser_dir();
        join(browser.as_str(), "profiles.ini")
    }

    /// The place in a profile where the browser looks for a theme.
    pub fn chrome_path(&self, profile: &Profile) -> (r: String)
        ensures
            r@ == chrome_path_of(self.home_dir@, profile@),
    {
        let dir = self.profile_dir(profile);
        join(dir.as_str(), "chrome")
    }

    /// The preference file of a profile.
    pub fn prefs_path(&self, profile: &Profile) -> (r: String)
        ensures
            r@ == prefs_path_of(self.home_dir@, profile@),
    {
        let dir = self.profile_dir(profile);
        join(dir.as_str(), "prefs.js")
    }

    /// The file that keeps the former content of a preference file.
    pub fn backup_path(&self, profile: &Profile) -> (r: String)
        ensures
            r@ == backup_path_of(self.home_dir@, profile@),
    {
        let dir = self.profile_dir(profile);
        join(dir.as_str(), "prefs-1.js")
    }

    /// The cached themes among the entries found two levels below the
    /// cache root: the directories that hold the marker of the
    /// version-control client, in the order in which they were found.
    pub fn repos(&self, entries: &Vec<CacheEntry>) -> (r: Vec<String>)
        ensures
            r.deep_view() == repos_among(entries.deep_view()),
    {
        let mut repos: Vec<String> = Vec::new();
        let ghost all = entries.deep_view();
        let mut i: usize = 0;
        while i < entries.len()
            invariant
                i <= entries.len(),
                all == entries.deep_view(),
                repos.deep_view() == repos_among(all.take(i as int)),
            decreases entries.len() - i,
        {
            let ghost before = repos.deep_view();
            proof {
                assert(all.take(i + 1).drop_last() =~= all.take(i as int));
                assert(all.take(i + 1).last() == entries[i as int]@);
            }
            if entries[i].is_dir && entries[i].has_marker {
                repos.push(entries[i].path.clone());
                assert(repos.deep_view() =~= before.push(entries[i as int].path@));
            }
            i += 1;
        }
        assert(all.take(entries.len() as int) =~= all);
        repos
    }

    /// The profiles that the text of the registry names, in its order:
    /// those of its sections whose name begins with `Profile` and which give
    /// a `Name` and a `Path`. `RegistryUnreadable` if the text is no INI
    /// document, `EmptyResult` if it names no profile.
    pub fn profiles(&self, registry: &str) -> (r: Result<Vec<Profile>, Error>)
        ensures
            profiles_view(r) == registry_profiles(registry@),
    {
        let text = strip_mark(registry);
        match read_ini(text.as_str()) {
            Some(sections) => profiles_from(&sections),
            None => Err(Error::RegistryUnreadable),
        }
    }
}

impl Profile {
    /// Checks the content of this profile's preference file and makes what
    /// it has to become. `None` if the content switches every required
    /// setting on; else the old content, to be kept under the backup's
    /// name, and the new one, with a line for each setting that is missing.
    pub fn check_and_make_prefs(&self, config: &Config, content: &str) -> (r: Option<PrefsUpdate>)
        ensures
            r.deep_view() == prefs_update_of(config.home_dir@, self@, content@),
    {
        match patch_prefs(content) {
            Some(prefs) => Some(
                PrefsUpdate {
                    backup_path: config.backup_path(self),
                    backup: content.to_owned(),
                    prefs_path: config.prefs_path(self),
                    prefs,
                },
            ),
            None => None,
        }
    }
}

} // verus!
