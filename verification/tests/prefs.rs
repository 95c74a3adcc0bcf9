use foxtheme::prefs::{checklist, classify_line, patch_prefs, scan_prefs, REQUIRED};

const KEYS: [&str; 6] = [
    "toolkit.legacyUserProfileCustomizations.stylesheets",
    "layers.acceleration.force-enabled",
    "gfx.webrender.all",
    "gfx.webrender.enabled",
    "layout.css.backdrop-filter.enabled",
    "svg.context-properties.content.enabled",
];

fn pair(key: &str, value: &str) -> Option<(String, String)> {
    Some((key.to_string(), value.to_string()))
}

fn complete_file() -> String {
    let mut text = String::new();
    for key in KEYS {
        text.push_str(&format!("user_pref(\"{}\", true);\n", key));
    }
    text
}

#[test]
fn classify_accepts_a_plain_call() {
    assert_eq!(
        classify_line("user_pref(\"gfx.webrender.all\", true);"),
        pair("gfx.webrender.all", "true")
    );
}

#[test]
fn classify_tolerates_inner_white_space() {
    assert_eq!(
        classify_line("  \tuser_pref  (  \"a.b\"  ,   false  )  ;  \r"),
        pair("a.b", "false")
    );
    assert_eq!(classify_line("user_pref(\"a.b\", false) x;"), None);
    assert_eq!(classify_line("user_pref(\" a.b \", false);"), pair(" a.b ", "false"));
    assert_eq!(classify_line("user_pref  (\"a.b\",1);"), pair("a.b", "1"));
    assert_eq!(classify_line("user_pref(\"a.b\",\u{a0}true\u{3000});"), pair("a.b", "true"));
}

#[test]
fn classify_gives_the_value_as_written() {
    assert_eq!(
        classify_line("user_pref(\"browser.startup.homepage\", \"https://a.b/c,d\");"),
        pair("browser.startup.homepage", "\"https://a.b/c,d\"")
    );
    assert_eq!(classify_line("user_pref(\"k\", );"), pair("k", ""));
}

#[test]
fn classify_passes_over_blank_lines_and_comments() {
    assert_eq!(classify_line(""), None);
    assert_eq!(classify_line("   \t "), None);
    assert_eq!(classify_line("// user_pref(\"gfx.webrender.all\", true);"), None);
    assert_eq!(classify_line("  //comment"), None);
}

#[test]
fn classify_passes_over_malformed_lines() {
    assert_eq!(classify_line("user_pref(\"gfx.webrender.all\", true)"), None);
    assert_eq!(classify_line("pref(\"gfx.webrender.all\", true);"), None);
    assert_eq!(classify_line("user_pref \"gfx.webrender.all\", true;"), None);
    assert_eq!(classify_line("user_pref(\"gfx.webrender.all\", true;"), None);
    assert_eq!(classify_line("user_pref(\"gfx.webrender.all\" true);"), None);
    assert_eq!(classify_line("user_pref(gfx.webrender.all, true);"), None);
    assert_eq!(classify_line("user_pref(\"gfx.webrender.all, true);"), None);
    assert_eq!(classify_line("user_pref(\", true);"), None);
    assert_eq!(classify_line("user_pref(\"a\", true); // on"), None);
}

#[test]
fn classify_splits_at_the_first_comma() {
    assert_eq!(classify_line("user_pref(\"a\", b, c);"), pair("a", "b, c"));
    assert_eq!(classify_line("user_pref(\"a,b\", c);"), None);
}

#[test]
fn checklist_starts_unobserved() {
    let list = checklist();
    assert_eq!(list.len(), REQUIRED);
    for (entry, key) in list.iter().zip(KEYS) {
        assert_eq!(entry.key, key);
        assert!(!entry.required_value);
        assert!(!entry.observed);
    }
}

#[test]
fn scan_marks_settings_that_are_true() {
    let text = "// prefs\n\
                user_pref(\"gfx.webrender.all\", true);\n\
                user_pref(\"gfx.webrender.enabled\", false);\r\n\
                \n\
                  user_pref( \"svg.context-properties.content.enabled\" , true ) ;\n\
                user_pref(\"other\", true);\n\
                user_pref(\"layers.acceleration.force-enabled\", TRUE);";
    let list = scan_prefs(text);
    let observed: Vec<bool> = list.iter().map(|e| e.observed).collect();
    assert_eq!(observed, vec![false, false, true, false, false, true]);
    for (entry, key) in list.iter().zip(KEYS) {
        assert_eq!(entry.key, key);
        assert!(!entry.required_value);
    }
}

#[test]
fn scan_reads_carriage_returns_and_a_last_line_without_end() {
    let text = "user_pref(\"gfx.webrender.all\", true);\r\nuser_pref(\"gfx.webrender.enabled\", true);";
    let list = scan_prefs(text);
    assert!(list[2].observed);
    assert!(list[3].observed);
    assert!(!list[0].observed);
}

#[test]
fn scan_does_not_join_lines() {
    let text = "user_pref(\"gfx.webrender.all\",\n true);";
    assert!(scan_prefs(text).iter().all(|e| !e.observed));
}

#[test]
fn patch_of_an_empty_file_writes_all_six_lines() {
    let expected = "user_pref(\"toolkit.legacyUserProfileCustomizations.stylesheets\", false)\n\
                    user_pref(\"layers.acceleration.force-enabled\", false)\n\
                    user_pref(\"gfx.webrender.all\", false)\n\
                    user_pref(\"gfx.webrender.enabled\", false)\n\
                    user_pref(\"layout.css.backdrop-filter.enabled\", false)\n\
                    user_pref(\"svg.context-properties.content.enabled\", false)\n";
    assert_eq!(patch_prefs(""), Some(expected.to_string()));
}

#[test]
fn patch_leaves_a_complete_file_alone() {
    let text = complete_file();
    assert_eq!(patch_prefs(&text), None);
    assert_eq!(patch_prefs(&text), None);
}

#[test]
fn patch_adds_only_what_is_missing_and_keeps_the_rest() {
    let text = "// mine\nuser_pref(\"gfx.webrender.all\", true);\nuser_pref(\"x\", 1);\n";
    let expected = format!(
        "{}user_pref(\"toolkit.legacyUserProfileCustomizations.stylesheets\", false)\n\
         user_pref(\"layers.acceleration.force-enabled\", false)\n\
         user_pref(\"gfx.webrender.enabled\", false)\n\
         user_pref(\"layout.css.backdrop-filter.enabled\", false)\n\
         user_pref(\"svg.context-properties.content.enabled\", false)\n",
        text
    );
    assert_eq!(patch_prefs(text), Some(expected));
}

#[test]
fn patch_writes_false_for_a_setting_that_is_false() {
    let mut text = complete_file();
    text = text.replace(
        "user_pref(\"gfx.webrender.enabled\", true);",
        "user_pref(\"gfx.webrender.enabled\", false);",
    );
    let expected = format!("{}user_pref(\"gfx.webrender.enabled\", false)\n", text);
    assert_eq!(patch_prefs(&text), Some(expected));
}

#[test]
fn patch_appends_directly_to_a_last_line_without_end() {
    let text = "user_pref(\"x\", 1);";
    let patched = patch_prefs(text).unwrap();
    assert!(patched.starts_with(
        "user_pref(\"x\", 1);user_pref(\"toolkit.legacyUserProfileCustomizations.stylesheets\", false)\n"
    ));
    assert_eq!(patched.lines().count(), 6);
}

#[test]
fn patched_file_is_still_incomplete() {
    let once = patch_prefs("").unwrap();
    let twice = patch_prefs(&once).unwrap();
    assert_eq!(twice.lines().count(), 12);
    assert!(twice.starts_with(&once));
}
