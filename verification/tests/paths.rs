use foxtheme::path::{join, join_all, path_ends_with, relative_name, split_segments};
use foxtheme::text::{chars_of, is_space_char, same_text, string_of};

fn strings(items: &[&str]) -> Vec<String> {
    items.iter().map(|s| s.to_string()).collect()
}

#[test]
fn join_puts_a_part_below_the_base() {
    assert_eq!(join("/home/u", ".mozilla"), "/home/u/.mozilla");
    assert_eq!(join("/home/u/", "x"), "/home/u/x");
    assert_eq!(join("", "x"), "x");
    assert_eq!(join("a", ""), "a/");
    assert_eq!(join("a", "b/c"), "a/b/c");
}

#[test]
fn join_lets_a_rooted_part_stand_for_itself() {
    assert_eq!(join("/home/u/.mozilla/firefox", "/srv/profile"), "/srv/profile");
}

#[test]
fn join_all_joins_in_turn() {
    assert_eq!(join_all("/cache", &strings(&["owner", "name"])), "/cache/owner/name");
    assert_eq!(join_all("/cache", &strings(&[])), "/cache");
    assert_eq!(join_all("", &strings(&["owner", "name"])), "owner/name");
}

#[test]
fn segments_pass_over_empty_runs_and_dots() {
    assert_eq!(split_segments("owner/name"), strings(&["owner", "name"]));
    assert_eq!(split_segments("/a//b/./c/"), strings(&["a", "b", "c"]));
    assert_eq!(split_segments(""), strings(&[]));
    assert_eq!(split_segments("///"), strings(&[]));
    assert_eq!(split_segments("a/../b"), strings(&["a", "..", "b"]));
    assert_eq!(split_segments(".hidden/..."), strings(&[".hidden", "..."]));
}

#[test]
fn ends_with_compares_whole_segments() {
    assert!(path_ends_with("/cache/owner/name", "name"));
    assert!(path_ends_with("/cache/owner/name", "owner/name"));
    assert!(path_ends_with("/cache/owner/name", "owner/name/"));
    assert!(!path_ends_with("/cache/owner/name", "ame"));
    assert!(!path_ends_with("/cache/owner/name", "owner"));
    assert!(path_ends_with("/cache/owner/name", ""));
    assert!(path_ends_with("/cache/owner/name", "/cache/owner/name"));
    assert!(!path_ends_with("/cache/owner/name", "/owner/name"));
    assert!(!path_ends_with("cache/owner/name", "/cache/owner/name"));
    assert!(!path_ends_with("name", "owner/name"));
}

#[test]
fn relative_name_is_the_path_seen_from_the_root() {
    assert_eq!(relative_name("/cache/owner/name", "/cache"), Some("owner/name".to_string()));
    assert_eq!(relative_name("/cache/owner/name", "/cache/"), Some("owner/name".to_string()));
    assert_eq!(relative_name("/cache", "/cache"), Some(String::new()));
    assert_eq!(relative_name("/cachet/owner", "/cache"), None);
    assert_eq!(relative_name("/other/owner/name", "/cache"), None);
    assert_eq!(relative_name("cache/x", "/cache"), None);
    assert_eq!(relative_name("/a", "/a/b"), None);
}

#[test]
fn white_space_is_what_unicode_says() {
    for c in ['\t', '\n', '\u{b}', '\u{c}', '\r', ' ', '\u{85}', '\u{a0}', '\u{1680}', '\u{2000}',
        '\u{200a}', '\u{2028}', '\u{2029}', '\u{202f}', '\u{205f}', '\u{3000}']
    {
        assert!(is_space_char(c));
    }
    for c in ['a', '0', '/', '\u{200b}', '\u{feff}', '\u{8}', '\u{e}', '\u{180e}'] {
        assert!(!is_space_char(c));
    }
    for n in 0..=0x10ffffu32 {
        if let Some(c) = char::from_u32(n) {
            assert_eq!(is_space_char(c), c.is_whitespace());
        }
    }
}

#[test]
fn strings_and_characters_convert_both_ways() {
    let chars = chars_of("añ/€");
    assert_eq!(chars, vec!['a', 'ñ', '/', '€']);
    assert_eq!(string_of(&chars), "añ/€");
    assert!(same_text("abc", "abc"));
    assert!(!same_text("abc", "abd"));
    assert!(!same_text("abc", "ab"));
}
