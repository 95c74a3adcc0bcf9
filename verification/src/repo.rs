//! Themes as repositories: from what the user names to the remote address
//! and the place in the local cache.
//!
//! A theme is named either in short, as `owner/name`, or by an absolute
//! URL. Either way its place in the cache is a list of segments below the
//! cache root. A segment never leads upwards: an identifier that would is
//! turned down.

use vstd::prelude::*;
use vstd::string::StringExecFns;
use crate::error::Error;
use crate::path::{
    all_plain, ends_with_path, is_plain, join_all, joined, joined_all, lemma_segments_of_joined,
    lemma_segments_of_joined_all, lemma_segments_of_plain, path_ends_with, segments,
    split_segments,
};
use crate::text::{chars_of, find_char, lemma_find, same_text};

verus! {

/// A theme: where it is fetched from and where it lies below the cache
/// root.
#[derive(Debug, PartialEq, Eq)]
pub struct Repo {
    pub remote_url: String,
    pub segments: Vec<String>,
}

/// A theme as contracts see it.
pub struct RepoView {
    pub remote_url: Seq<char>,
    pub segments: Seq<Seq<char>>,
}

impl View for Repo {
    type V = RepoView;

    open spec fn view(&self) -> RepoView {
        RepoView { remote_url: self.remote_url@, segments: self.segments.deep_view() }
    }
}

impl DeepView for Repo {
    type V = RepoView;

    open spec fn deep_view(&self) -> RepoView {
        self@
    }
}

/// What the tool reads from an absolute URL: its domain, if its host is
/// one, and its path.
#[derive(Debug, PartialEq, Eq)]
pub struct UrlParts {
    pub domain: Option<String>,
    pub path: String,
}

/// The parts of a URL as contracts see them.
pub struct UrlPartsView {
    pub domain: Option<Seq<char>>,
    pub path: Seq<char>,
}

impl View for UrlParts {
    type V = UrlPartsView;

    open spec fn view(&self) -> UrlPartsView {
        UrlPartsView { domain: self.domain.deep_view(), path: self.path@ }
    }
}

impl DeepView for UrlParts {
    type V = UrlPartsView;

    open spec fn deep_view(&self) -> UrlPartsView {
        self@
    }
}

/// The domain and the path of `input` read as an absolute URL, or `None`
/// where it is none.
pub uninterp spec fn url_parts(input: Seq<char>) -> Option<UrlPartsView>;

/// Reads a text as an absolute URL with `url::Url::parse` and hands out
/// what `Url::domain` and `Url::path` return for it; `None` where the parser
/// rejects the text. Nothing is claimed of the parser but that the same text
/// always gives the same parts.
#[verifier::external_body]
fn parse_url(input: &str) -> (r: Option<UrlParts>)
    ensures
        r.deep_view() == url_parts(input@),
{
    match url::Url::parse(input) {
        Ok(u) => Some(UrlParts { domain: u.domain().map(|d| d.to_owned()), path: u.path().to_owned() }),
        Err(_) => None,
    }
}

/// The host whose themes lie directly below the cache root, and from which
/// a theme named in short is fetched.
pub open spec fn default_host() -> Seq<char> {
    "github.com"@
}

/// The address before the identifier of a theme named in short.
pub open spec fn default_prefix() -> Seq<char> {
    "https://github.com/"@
}

/// Whether a segment may stand in a path below the cache root: it names a
/// directory, does not lead upwards and holds no separator.
pub open spec fn is_safe(segment: Seq<char>) -> bool {
    is_plain(segment) && segment != seq!['.', '.']
}

/// Whether every segment is safe.
pub open spec fn all_safe(segs: Seq<Seq<char>>) -> bool {
    forall|i: int| 0 <= i < segs.len() ==> is_safe(#[trigger] segs[i])
}

/// The segment that a host contributes: none for the default host or where
/// the URL has no domain, else the domain.
pub open spec fn host_segments(domain: Option<Seq<char>>) -> Seq<Seq<char>> {
    if domain is Some && domain->0 != default_host() {
        seq![domain->0]
    } else {
        Seq::empty()
    }
}

/// The segments below the cache root for an identifier: for a URL the
/// host's segment and those of its path, else those of the identifier.
pub open spec fn cache_segments(identifier: Seq<char>, url: Option<UrlPartsView>) -> Seq<Seq<char>> {
    match url {
        Some(u) => host_segments(u.domain) + segments(u.path),
        None => segments(identifier),
    }
}

/// The address a theme is fetched from: a URL as it is, a short name after
/// the default prefix.
pub open spec fn remote_of(identifier: Seq<char>, url: Option<UrlPartsView>) -> Seq<char> {
    match url {
        Some(_) => identifier,
        None => default_prefix() + identifier,
    }
}

/// The theme that an identifier names, given the parts of the identifier
/// read as a URL. `InvalidRepo` if it has no segment below the cache root,
/// or one that is not safe.
pub open spec fn resolved(identifier: Seq<char>, url: Option<UrlPartsView>) -> Result<
    RepoView,
    Error,
> {
    let segs = cache_segments(identifier, url);
    if segs.len() > 0 && all_safe(segs) {
        Ok(RepoView { remote_url: remote_of(identifier, url), segments: segs })
    } else {
        Err(Error::InvalidRepo)
    }
}

/// The directory in which a path with the given segments lies.
pub open spec fn parent_of(root: Seq<char>, segs: Seq<Seq<char>>) -> Seq<char> {
    if segs.len() == 0 {
        root
    } else {
        joined_all(root, segs.drop_last())
    }
}

/// The paths whose last segments are those of `suffix`, in their order, or
/// all of them where no suffix is given.
pub open spec fn repos_ending(repos: Seq<Seq<char>>, suffix: Option<Seq<char>>) -> Seq<Seq<char>>
    decreases repos.len(),
{
    if repos.len() == 0 {
        Seq::empty()
    } else if suffix is None || ends_with_path(repos.last(), suffix->0) {
        repos_ending(repos.drop_last(), suffix).push(repos.last())
    } else {
        repos_ending(repos.drop_last(), suffix)
    }
}

/// A theme, or the error in its place, as contracts see it.
pub open spec fn repo_view(r: Result<Repo, Error>) -> Result<RepoView, Error> {
    match r {
        Ok(repo) => Ok(repo@),
        Err(e) => Err(e),
    }
}

/// Safe segments are plain ones.
proof fn lemma_safe_is_plain(segs: Seq<Seq<char>>)
    requires
        all_safe(segs),
    ensures
        all_plain(segs),
{
    assert forall|i: int| 0 <= i < segs.len() implies is_plain(#[trigger] segs[i]) by {
        assert(is_safe(segs[i]));
    }
}

/// A theme lies below the cache root: the segments of its place are those
/// of the root followed by its own, none of which leads upwards, and
/// its place begins with the root and goes on after it.
pub proof fn lemma_theme_lies_below_cache_root(
    identifier: Seq<char>,
    url: Option<UrlPartsView>,
    cache_root: Seq<char>,
)
    requires
        resolved(identifier, url) is Ok,
    ensures
        ({
            let segs = cache_segments(identifier, url);
            let place = joined_all(cache_root, segs);
            &&& resolved(identifier, url) matches Ok(repo) && repo.segments == segs
            &&& segs.len() > 0
            &&& all_safe(segs)
            &&& segments(place) == segments(cache_root) + segs
            &&& cache_root.is_prefix_of(place)
            &&& place.len() > cache_root.len()
        }),
{
    let segs = cache_segments(identifier, url);
    lemma_safe_is_plain(segs);
    lemma_segments_of_joined_all(cache_root, segs);
}

/// A theme named in short, as `owner/name`, is fetched from
/// `https://github.com/owner/name` and lies at `owner/name` below the cache
/// root.
pub proof fn lemma_short_name(owner: Seq<char>, name: Seq<char>, cache_root: Seq<char>)
    requires
        is_safe(owner),
        is_safe(name),
    ensures
        resolved(owner + seq!['/'] + name, None) == Ok::<RepoView, Error>(
            RepoView {
                remote_url: "https://github.com/"@ + (owner + seq!['/'] + name),
                segments: seq![owner, name],
            },
        ),
        joined_all(cache_root, seq![owner, name]) == joined(joined(cache_root, owner), name),
        cache_root.len() > 0 && cache_root.last() != '/' ==> joined_all(
            cache_root,
            seq![owner, name],
        ) == cache_root + seq!['/'] + owner + seq!['/'] + name,
{
    let identifier = owner + seq!['/'] + name;
    let segs = seq![owner, name];
    assert(name.contains(name[0]));
    assert(owner.contains(owner.last()));
    assert(identifier =~= joined(owner, name));
    lemma_segments_of_plain(owner);
    lemma_segments_of_joined(owner, name);
    assert(segments(identifier) =~= segs);
    assert(all_safe(segs));
    assert(segs.drop_last() =~= seq![owner]);
    assert(seq![owner].drop_last() =~= Seq::<Seq<char>>::empty());
    assert(joined_all(cache_root, Seq::<Seq<char>>::empty()) == cache_root);
    assert(seq![owner].last() == owner);
    assert(joined_all(cache_root, seq![owner]) == joined(cache_root, owner));
    assert(segs.last() == name);
    assert(owner.contains(owner[0]));
    if cache_root.len() > 0 && cache_root.last() != '/' {
        let below = joined(cache_root, owner);
        assert(below == cache_root + seq!['/'] + owner);
        assert(below.last() == owner.last());
    }
}

/// The default host is left out of a theme's place: for a URL on that
/// host the place is given by the URL's path alone, so the host is no
/// segment of it unless the cache root or the URL's own path names it.
pub proof fn lemma_default_host_is_left_out(
    identifier: Seq<char>,
    path: Seq<char>,
    cache_root: Seq<char>,
)
    requires
        resolved(identifier, Some(UrlPartsView { domain: Some(default_host()), path })) is Ok,
        !segments(cache_root).contains(default_host()),
        !segments(path).contains(default_host()),
    ensures
        ({
            let url = Some(UrlPartsView { domain: Some(default_host()), path });
            &&& resolved(identifier, url) matches Ok(repo) && repo.remote_url == identifier
                && repo.segments == segments(path)
            &&& !segments(joined_all(cache_root, segments(path))).contains(default_host())
        }),
{
    let url = Some(UrlPartsView { domain: Some(default_host()), path });
    lemma_theme_lies_below_cache_root(identifier, url, cache_root);
    assert(cache_segments(identifier, url) =~= segments(path));
    let place = segments(joined_all(cache_root, segments(path)));
    if place.contains(default_host()) {
        let i = choose|i: int| 0 <= i < place.len() && place[i] == default_host();
        if i < segments(cache_root).len() {
            assert(segments(cache_root)[i] == default_host());
        } else {
            assert(segments(path)[i - segments(cache_root).len()] == default_host());
        }
    }
}

/// Any other host is the first segment of a theme's place below the
/// cache root, before those of the URL's path.
pub proof fn lemma_other_host_comes_first(
    identifier: Seq<char>,
    domain: Seq<char>,
    path: Seq<char>,
    cache_root: Seq<char>,
)
    requires
        domain != default_host(),
        resolved(identifier, Some(UrlPartsView { domain: Some(domain), path })) is Ok,
    ensures
        ({
            let url = Some(UrlPartsView { domain: Some(domain), path });
            let place = segments(joined_all(cache_root, seq![domain] + segments(path)));
            &&& resolved(identifier, url) matches Ok(repo) && repo.remote_url == identifier
                && repo.segments == seq![domain] + segments(path)
            &&& place == segments(cache_root) + seq![domain] + segments(path)
            &&& place.contains(domain)
        }),
{
    let url = Some(UrlPartsView { domain: Some(domain), path });
    lemma_theme_lies_below_cache_root(identifier, url, cache_root);
    let place = segments(joined_all(cache_root, seq![domain] + segments(path)));
    assert(place =~= segments(cache_root) + seq![domain] + segments(path));
    assert(place[segments(cache_root).len() as int] == domain);
}

/// Whether a segment may stand in a path below the cache root.
pub fn is_safe_segment(segment: &str) -> (r: bool)
    ensures
        r == is_safe(segment@),
{
    let s = chars_of(segment);
    if s.len() == 0 {
        return false;
    }
    if s.len() == 1 && s[0] == '.' {
        assert(s@ =~= seq!['.']);
        return false;
    }
    if s.len() == 2 && s[0] == '.' && s[1] == '.' {
        assert(s@ =~= seq!['.', '.']);
        return false;
    }
    let i: usize = find_char(s.as_slice(), '/');
    proof {
        lemma_find(s@, '/');
        if s@ == seq!['.'] {
            assert(s@[0] == seq!['.'][0]);
        }
        if s@ == seq!['.', '.'] {
            assert(s@[0] == seq!['.', '.'][0]);
            assert(s@[1] == seq!['.', '.'][1]);
        }
    }
    i == s.len()
}

/// Whether every segment is safe.
fn are_safe(segs: &Vec<String>) -> (r: bool)
    ensures
        r == all_safe(segs.deep_view()),
{
    let mut i: usize = 0;
    while i < segs.len()
        invariant
            i <= segs.len(),
            forall|j: int| 0 <= j < i ==> is_safe(#[trigger] segs.deep_view()[j]),
        decreases segs.len() - i,
    {
        if !is_safe_segment(segs[i].as_str()) {
            assert(!is_safe(segs.deep_view()[i as int]));
            return false;
        }
        i += 1;
    }
    true
}

/// The theme that an identifier names, given the identifier read as a URL
/// (`None` where it is no absolute URL).
///
/// For a URL the remote address is the identifier itself, and the place in
/// the cache is the domain, unless it is the default host, followed by the
/// segments of the URL's path. For any other identifier the remote address
/// is the identifier after `https://github.com/`, and the place in the cache
/// is given by the identifier's own segments. `InvalidRepo` if there is no
/// segment, or one that is not safe.
pub fn resolve_parsed(identifier: &str, url: Option<UrlParts>) -> (r: Result<Repo, Error>)
    ensures
        repo_view(r) == resolved(identifier@, url.deep_view()),
{
    let mut segs: Vec<String> = Vec::new();
    let remote_url;
    match url {
        Some(u) => {
            match u.domain {
                Some(d) => {
                    if !same_text(d.as_str(), "github.com") {
                        segs.push(d);
                    }
                },
                None => {},
            }
            let ghost host = segs.deep_view();
            assert(host =~= host_segments(u.domain.deep_view()));
            let mut rest = split_segments(u.path.as_str());
            let ghost tail = rest.deep_view();
            segs.append(&mut rest);
            assert(segs.deep_view() =~= host + tail);
            remote_url = identifier.to_owned();
        },
        None => {
            segs = split_segments(identifier);
            let mut address = "https://github.com/".to_owned();
            address.append(identifier);
            remote_url = address;
        },
    }
    if segs.len() > 0 && are_safe(&segs) {
        Ok(Repo { remote_url, segments: segs })
    } else {
        Err(Error::InvalidRepo)
    }
}

/// The theme that an identifier names: `resolve_parsed` for the identifier
/// and what the URL parser makes of it.
pub fn resolve(identifier: &str) -> (r: Result<Repo, Error>)
    ensures
        repo_view(r) == resolved(identifier@, url_parts(identifier@)),
{
    resolve_parsed(identifier, parse_url(identifier))
}

impl Repo {
    /// The place of the theme below `cache_root`.
    pub fn local_path(&self, cache_root: &str) -> (r: String)
        ensures
            r@ == joined_all(cache_root@, self@.segments),
    {
        join_all(cache_root, &self.segments)
    }

    /// The directory in which the theme's place lies.
    pub fn parent_path(&self, cache_root: &str) -> (r: String)
        ensures
            r@ == parent_of(cache_root@, self@.segments),
    {
        let mut r = cache_root.to_owned();
        if self.segments.len() == 0 {
            return r;
        }
        let last: usize = self.segments.len() - 1;
        let ghost segs = self@.segments;
        let mut i: usize = 0;
        while i < last
            invariant
                i <= last,
                last + 1 == self.segments.len(),
                segs == self.segments.deep_view(),
                r@ == joined_all(cache_root@, segs.drop_last().take(i as int)),
            decreases last - i,
        {
            proof {
                let next = segs.drop_last().take(i + 1);
                assert(next.drop_last() =~= segs.drop_last().take(i as int));
                assert(next.last() == self.segments[i as int]@);
            }
            r = crate::path::join(r.as_str(), self.segments[i].as_str());
            i += 1;
        }
        assert(segs.drop_last().take(last as int) =~= segs.drop_last());
        r
    }

    /// The name under which the theme is reported: its segments, joined.
    pub fn name(&self) -> (r: String)
        ensures
            r@ == joined_all(Seq::empty(), self@.segments),
    {
        proof {
            reveal_strlit("");
            assert(""@ =~= Seq::<char>::empty());
        }
        join_all("", &self.segments)
    }
}

/// The cached themes that a command works on: those whose path ends with
/// the segments of `suffix`, in their order, or all of them where no suffix
/// is given.
pub fn select_repos(repos: &Vec<String>, suffix: &Option<String>) -> (r: Vec<String>)
    ensures
        r.deep_view() == repos_ending(repos.deep_view(), suffix.deep_view()),
{
    let mut kept: Vec<String> = Vec::new();
    let ghost all = repos.deep_view();
    let mut i: usize = 0;
    while i < repos.len()
        invariant
            i <= repos.len(),
            all == repos.deep_view(),
            kept.deep_view() == repos_ending(all.take(i as int), suffix.deep_view()),
        decreases repos.len() - i,
    {
        let ghost before = kept.deep_view();
        proof {
            assert(all.take(i + 1).drop_last() =~= all.take(i as int));
            assert(all.take(i + 1).last() == repos[i as int]@);
        }
        let keep = match suffix {
            Some(s) => path_ends_with(repos[i].as_str(), s.as_str()),
            None => true,
        };
        if keep {
            kept.push(repos[i].clone());
            assert(kept.deep_view() =~= before.push(repos[i as int]@));
        }
        i += 1;
    }
    assert(all.take(repos.len() as int) =~= all);
    kept
}

} // verus!
