use foxtheme::error::Error;
use foxtheme::repo::{is_safe_segment, resolve, resolve_parsed, select_repos, Repo, UrlParts};

fn strings(items: &[&str]) -> Vec<String> {
    items.iter().map(|s| s.to_string()).collect()
}

fn repo(remote_url: &str, segments: &[&str]) -> Repo {
    Repo { remote_url: remote_url.to_string(), segments: strings(segments) }
}

#[test]
fn short_name_resolves_to_the_default_host() {
    let theme = resolve("owner/name").unwrap();
    assert_eq!(theme, repo("https://github.com/owner/name", &["owner", "name"]));
    assert_eq!(theme.local_path("/cache"), "/cache/owner/name");
    assert_eq!(theme.parent_path("/cache"), "/cache/owner");
    assert_eq!(theme.name(), "owner/name");
}

#[test]
fn url_on_the_default_host_leaves_the_host_out() {
    let theme = resolve("https://github.com/owner/name").unwrap();
    assert_eq!(theme, repo("https://github.com/owner/name", &["owner", "name"]));
    assert_eq!(theme.local_path("/cache"), "/cache/owner/name");
}

#[test]
fn url_on_another_host_begins_with_the_host() {
    let theme = resolve("https://gitlab.com/owner/name/").unwrap();
    assert_eq!(theme, repo("https://gitlab.com/owner/name/", &["gitlab.com", "owner", "name"]));
    assert_eq!(theme.local_path("/cache"), "/cache/gitlab.com/owner/name");
    assert_eq!(theme.name(), "gitlab.com/owner/name");
}

#[test]
fn url_keeps_its_text_as_remote_address() {
    let theme = resolve("HTTPS://GitHub.com/Owner/Name.git?x=1#top").unwrap();
    assert_eq!(theme.remote_url, "HTTPS://GitHub.com/Owner/Name.git?x=1#top");
    assert_eq!(theme.segments, strings(&["Owner", "Name.git"]));
}

#[test]
fn url_with_an_address_for_host_has_no_host_segment() {
    let theme = resolve("https://127.0.0.1/owner/name").unwrap();
    assert_eq!(theme.segments, strings(&["owner", "name"]));
}

#[test]
fn url_parser_settles_dots_in_a_web_address() {
    let theme = resolve("https://example.org/a/../b/c").unwrap();
    assert_eq!(theme.segments, strings(&["example.org", "b", "c"]));
}

#[test]
fn identifier_that_leads_upwards_is_turned_down() {
    assert_eq!(resolve("../../etc"), Err(Error::InvalidRepo));
    assert_eq!(resolve("owner/../../name"), Err(Error::InvalidRepo));
    assert_eq!(resolve("foo:../../etc"), Err(Error::InvalidRepo));
    assert_eq!(resolve(".."), Err(Error::InvalidRepo));
}

#[test]
fn identifier_without_a_segment_is_turned_down() {
    assert_eq!(resolve(""), Err(Error::InvalidRepo));
    assert_eq!(resolve("/"), Err(Error::InvalidRepo));
    assert_eq!(resolve("./."), Err(Error::InvalidRepo));
    assert_eq!(resolve("https://github.com"), Err(Error::InvalidRepo));
}

#[test]
fn rooted_short_name_stays_below_the_cache() {
    let theme = resolve("/etc/passwd").unwrap();
    assert_eq!(theme.segments, strings(&["etc", "passwd"]));
    assert_eq!(theme.local_path("/cache"), "/cache/etc/passwd");
    assert_eq!(theme.remote_url, "https://github.com//etc/passwd");
}

#[test]
fn resolve_parsed_follows_the_parts_it_is_given() {
    let parts = UrlParts { domain: Some("codeberg.org".to_string()), path: "/a/b".to_string() };
    assert_eq!(
        resolve_parsed("anything", Some(parts)),
        Ok(repo("anything", &["codeberg.org", "a", "b"]))
    );
    let parts = UrlParts { domain: Some("github.com".to_string()), path: "/a/b".to_string() };
    assert_eq!(resolve_parsed("anything", Some(parts)), Ok(repo("anything", &["a", "b"])));
    let parts = UrlParts { domain: None, path: "a/b".to_string() };
    assert_eq!(resolve_parsed("x:a/b", Some(parts)), Ok(repo("x:a/b", &["a", "b"])));
    let parts = UrlParts { domain: Some("..".to_string()), path: "/a".to_string() };
    assert_eq!(resolve_parsed("x", Some(parts)), Err(Error::InvalidRepo));
    let parts = UrlParts { domain: Some("a/b".to_string()), path: "/a".to_string() };
    assert_eq!(resolve_parsed("x", Some(parts)), Err(Error::InvalidRepo));
    let parts = UrlParts { domain: Some(String::new()), path: "/a".to_string() };
    assert_eq!(resolve_parsed("x", Some(parts)), Err(Error::InvalidRepo));
    assert_eq!(
        resolve_parsed("owner/name", None),
        Ok(repo("https://github.com/owner/name", &["owner", "name"]))
    );
}

#[test]
fn safe_segments_name_a_directory_below() {
    assert!(is_safe_segment("owner"));
    assert!(is_safe_segment("..."));
    assert!(is_safe_segment(".git"));
    assert!(!is_safe_segment(""));
    assert!(!is_safe_segment("."));
    assert!(!is_safe_segment(".."));
    assert!(!is_safe_segment("a/b"));
    assert!(!is_safe_segment("/"));
}

#[test]
fn select_keeps_the_themes_that_end_with_the_name() {
    let cached = strings(&["/cache/a/one", "/cache/b/one", "/cache/a/two"]);
    assert_eq!(select_repos(&cached, &None), cached);
    assert_eq!(
        select_repos(&cached, &Some("one".to_string())),
        strings(&["/cache/a/one", "/cache/b/one"])
    );
    assert_eq!(select_repos(&cached, &Some("a/one".to_string())), strings(&["/cache/a/one"]));
    assert_eq!(select_repos(&cached, &Some("three".to_string())), strings(&[]));
    assert_eq!(select_repos(&cached, &Some("ne".to_string())), strings(&[]));
}
