use foxtheme::error::Error;
use foxtheme::profile::{
    lookup_entry, marker_path, profile_in, profiles_from, select_profiles, strip_mark,
    CacheEntry, Config, PrefsUpdate, Profile, Section,
};

fn config() -> Config {
    Config::new(Some("/home/u".to_string()), Some("/home/u/.local/share/foxtheme".to_string()))
        .unwrap()
}

fn profile(name: &str, path: &str) -> Profile {
    Profile { name: name.to_string(), path: path.to_string() }
}

fn section(name: Option<&str>, entries: &[(&str, &str)]) -> Section {
    Section {
        name: name.map(|n| n.to_string()),
        entries: entries.iter().map(|(k, v)| (k.to_string(), v.to_string())).collect(),
    }
}

const REGISTRY: &str = "[Install4F96D1932A9F858E]\n\
Default=Profiles/abc.default-release\n\
Locked=1\n\
\n\
[Profile1]\n\
Name=default\n\
IsRelative=1\n\
Path=Profiles/xyz.default\n\
Default=1\n\
\n\
[Profile0]\n\
Name=default-release\n\
IsRelative=1\n\
Path=Profiles/abc.default-release\n\
\n\
[General]\n\
StartWithLastProfile=1\n\
Version=2\n";

#[test]
fn config_needs_both_directories() {
    assert_eq!(Config::new(None, Some("d".to_string())), Err(Error::ConfigNotFound));
    assert_eq!(Config::new(Some("h".to_string()), None), Err(Error::ConfigNotFound));
    assert_eq!(Config::new(None, None), Err(Error::ConfigNotFound));
    let made = Config::new(Some("h".to_string()), Some("d".to_string())).unwrap();
    assert_eq!(made.home_dir, "h");
    assert_eq!(made.data_dir, "d");
}

#[test]
fn paths_lie_below_the_browser_directory() {
    let c = config();
    let p = profile("default", "Profiles/xyz.default");
    assert_eq!(c.registry_path(), "/home/u/.mozilla/firefox/profiles.ini");
    assert_eq!(c.chrome_path(&p), "/home/u/.mozilla/firefox/Profiles/xyz.default/chrome");
    assert_eq!(c.prefs_path(&p), "/home/u/.mozilla/firefox/Profiles/xyz.default/prefs.js");
    assert_eq!(c.backup_path(&p), "/home/u/.mozilla/firefox/Profiles/xyz.default/prefs-1.js");
}

#[test]
fn rooted_profile_path_stands_for_itself() {
    let c = config();
    let p = profile("work", "/srv/profiles/work");
    assert_eq!(c.chrome_path(&p), "/srv/profiles/work/chrome");
    assert_eq!(c.prefs_path(&p), "/srv/profiles/work/prefs.js");
}

#[test]
fn registry_yields_its_profiles_in_order() {
    assert_eq!(
        config().profiles(REGISTRY),
        Ok(vec![
            profile("default", "Profiles/xyz.default"),
            profile("default-release", "Profiles/abc.default-release"),
        ])
    );
}

#[test]
fn registry_with_a_mark_at_its_head_is_read_alike() {
    let marked = format!("\u{feff}{}", REGISTRY);
    assert_eq!(config().profiles(&marked), config().profiles(REGISTRY));
    assert_eq!(strip_mark("\u{feff}[a]"), "[a]");
    assert_eq!(strip_mark("[a]\u{feff}"), "[a]\u{feff}");
    assert_eq!(strip_mark(""), "");
}

#[test]
fn registry_without_profiles_is_an_empty_result() {
    assert_eq!(config().profiles(""), Err(Error::EmptyResult));
    assert_eq!(config().profiles("[General]\nVersion=2\n"), Err(Error::EmptyResult));
    assert_eq!(config().profiles("[Profile0]\nName=only-a-name\n"), Err(Error::EmptyResult));
    assert_eq!(config().profiles("[Profile0]\nPath=only-a-path\n"), Err(Error::EmptyResult));
    assert_eq!(config().profiles("[Other]\nName=a\nPath=b\n"), Err(Error::EmptyResult));
    assert_eq!(config().profiles("Name=a\nPath=b\n"), Err(Error::EmptyResult));
}

#[test]
fn registry_that_is_no_document_is_unreadable() {
    assert_eq!(config().profiles("[Profile0\nName=a\nPath=b\n"), Err(Error::RegistryUnreadable));
}

#[test]
fn section_name_needs_only_begin_with_the_marker() {
    assert_eq!(
        config().profiles("[ProfileX]\nName=a\nPath=b\n[profile1]\nName=c\nPath=d\n"),
        Ok(vec![profile("a", "b")])
    );
}

#[test]
fn profile_takes_the_first_value_of_a_key() {
    let s = section(Some("Profile3"), &[("Name", "a"), ("Path", "p"), ("Name", "b"), ("Path", "q")]);
    assert_eq!(profile_in(&s), Some(profile("a", "p")));
    assert_eq!(lookup_entry(&s.entries, "Path"), Some(&"p".to_string()));
    assert_eq!(lookup_entry(&s.entries, "path"), None);
    assert_eq!(profile_in(&section(None, &[("Name", "a"), ("Path", "p")])), None);
    assert_eq!(profile_in(&section(Some("Profile"), &[("Name", "a")])), None);
    assert_eq!(profile_in(&section(Some("AProfile"), &[("Name", "a"), ("Path", "p")])), None);
}

#[test]
fn profiles_from_sections_keep_their_order() {
    let sections = vec![
        section(Some("General"), &[("Version", "2")]),
        section(Some("Profile1"), &[("Name", "b"), ("Path", "pb")]),
        section(Some("Profile0"), &[("Path", "pa"), ("Name", "a")]),
    ];
    assert_eq!(profiles_from(&sections), Ok(vec![profile("b", "pb"), profile("a", "pa")]));
    assert_eq!(profiles_from(&Vec::new()), Err(Error::EmptyResult));
}

#[test]
fn select_keeps_the_profiles_of_that_name() {
    let all = vec![profile("A", "a"), profile("B", "b"), profile("A", "c")];
    assert_eq!(select_profiles(&all, &None), all);
    assert_eq!(
        select_profiles(&all, &Some("A".to_string())),
        vec![profile("A", "a"), profile("A", "c")]
    );
    assert_eq!(select_profiles(&all, &Some("a".to_string())), Vec::<Profile>::new());
}

#[test]
fn repos_are_the_directories_with_a_marker() {
    let entries = vec![
        CacheEntry { path: "/c/a/one".to_string(), is_dir: true, has_marker: true },
        CacheEntry { path: "/c/a/file".to_string(), is_dir: false, has_marker: false },
        CacheEntry { path: "/c/a/plain".to_string(), is_dir: true, has_marker: false },
        CacheEntry { path: "/c/b/odd".to_string(), is_dir: false, has_marker: true },
        CacheEntry { path: "/c/b/two".to_string(), is_dir: true, has_marker: true },
    ];
    assert_eq!(config().repos(&entries), vec!["/c/a/one".to_string(), "/c/b/two".to_string()]);
    assert_eq!(config().repos(&Vec::new()), Vec::<String>::new());
}

#[test]
fn prefs_of_a_profile_are_checked_and_made() {
    let c = config();
    let p = profile("default", "Profiles/xyz.default");
    let content = "user_pref(\"a\", 1);\n";
    let update = p.check_and_make_prefs(&c, content).unwrap();
    assert_eq!(
        update,
        PrefsUpdate {
            backup_path: "/home/u/.mozilla/firefox/Profiles/xyz.default/prefs-1.js".to_string(),
            backup: content.to_string(),
            prefs_path: "/home/u/.mozilla/firefox/Profiles/xyz.default/prefs.js".to_string(),
            prefs: format!(
                "{}user_pref(\"toolkit.legacyUserProfileCustomizations.stylesheets\", false)\n\
                 user_pref(\"layers.acceleration.force-enabled\", false)\n\
                 user_pref(\"gfx.webrender.all\", false)\n\
                 user_pref(\"gfx.webrender.enabled\", false)\n\
                 user_pref(\"layout.css.backdrop-filter.enabled\", false)\n\
                 user_pref(\"svg.context-properties.content.enabled\", false)\n",
                content
            ),
        }
    );
    let complete = "user_pref(\"toolkit.legacyUserProfileCustomizations.stylesheets\", true);\n\
                    user_pref(\"layers.acceleration.force-enabled\", true);\n\
                    user_pref(\"gfx.webrender.all\", true);\n\
                    user_pref(\"gfx.webrender.enabled\", true);\n\
                    user_pref(\"layout.css.backdrop-filter.enabled\", true);\n\
                    user_pref(\"svg.context-properties.content.enabled\", true);\n";
    assert_eq!(p.check_and_make_prefs(&c, complete), None);
}

#[test]
fn marker_lies_in_the_theme_directory() {
    assert_eq!(marker_path("/c/a/one"), "/c/a/one/.git");
}
