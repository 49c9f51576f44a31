use engine_core::project::FileManagement;
use engine_core::text::{
    chars_less, chars_of, contains_chars, copy_texts, find_text, is_blank_text, lowercase_chars,
    matches_filter, same_text, starts_with, trim,
};

fn cs(s: &str) -> Vec<char> {
    s.chars().collect()
}

#[test]
fn is_blank_text_knows_unicode_whitespace() {
    assert!(is_blank_text(""));
    assert!(is_blank_text(" \t\r\n"));
    assert!(is_blank_text("\u{00a0}\u{2003}\u{3000}"));
    assert!(!is_blank_text(" a "));
    assert!(!is_blank_text("\u{200b}"));
}

#[test]
fn trim_matches_std_trim() {
    for s in ["", "   ", "a", "  a", "a  ", "  a b  ", "\n\tx y\u{2003}", "äö ü ", " \u{200b} "] {
        assert_eq!(trim(s), s.trim());
    }
    assert_eq!(trim("  Level 1  "), "Level 1");
}

#[test]
fn chars_of_gives_each_character() {
    assert_eq!(chars_of("héllo"), vec!['h', 'é', 'l', 'l', 'o']);
    assert!(chars_of("").is_empty());
}

#[test]
fn lowercase_chars_lowers_letters() {
    assert_eq!(lowercase_chars("PlAyEr"), cs("player"));
    assert_eq!(lowercase_chars("ÄÖÜ"), cs("äöü"));
    assert_eq!(lowercase_chars("abc1"), cs("abc1"));
}

#[test]
fn matches_filter_ignores_case() {
    assert!(matches_filter("Player", ""));
    assert!(matches_filter("PLAYER", "play"));
    assert!(matches_filter("player", "LAY"));
    assert!(matches_filter("Player", "Player"));
    assert!(!matches_filter("Player", "players"));
    assert!(!matches_filter("Player", "enemy"));
    assert!(!matches_filter("", "a"));
}

#[test]
fn contains_chars_finds_runs() {
    assert!(contains_chars(&cs("abcabd"), &cs("abd")));
    assert!(contains_chars(&cs("abc"), &cs("")));
    assert!(contains_chars(&cs(""), &cs("")));
    assert!(contains_chars(&cs("abc"), &cs("c")));
    assert!(!contains_chars(&cs("abc"), &cs("ac")));
    assert!(!contains_chars(&cs("ab"), &cs("abc")));
}

#[test]
fn starts_with_checks_the_start() {
    assert!(starts_with("transform_scale_x", "transform_"));
    assert!(starts_with("abc", ""));
    assert!(!starts_with("xtransform_", "transform_"));
    assert!(!starts_with("trans", "transform_"));
}

#[test]
fn chars_less_is_the_order_of_strings() {
    let words = ["", "a", "ab", "abc", "b", "B", "ä", "a b", "aa"];
    for x in words {
        for y in words {
            assert_eq!(chars_less(&cs(x), &cs(y)), x < y, "{:?} < {:?}", x, y);
        }
    }
}

#[test]
fn same_text_and_find_text() {
    assert!(same_text("Scene", "Scene"));
    assert!(!same_text("Scene", "scene"));
    let list = vec!["a".to_string(), "b".to_string()];
    assert_eq!(find_text(&list, "b"), Some(1));
    assert_eq!(find_text(&list, "c"), None);
    assert_eq!(copy_texts(&list), list);
}

#[test]
fn create_project_lays_out_the_folders() {
    let layout = FileManagement::create_project("demo", "/home/me/projects");
    let base = "/home/me/projects/demo";
    assert_eq!(layout.base_path, base);
    assert_eq!(
        layout.folders,
        vec![
            base.to_string(),
            format!("{}/assets", base),
            format!("{}/assets/images", base),
            format!("{}/assets/sounds", base),
            format!("{}/assets/fonts", base),
            format!("{}/assets/videos", base),
            format!("{}/entities", base),
            format!("{}/scripts", base),
            format!("{}/scenes", base),
        ]
    );
    assert_eq!(layout.project_file, format!("{}/project.json", base));
    assert_eq!(layout.metadata.project_name, "demo");
    assert_eq!(layout.metadata.version, "1.0.0");
    assert_eq!(layout.metadata.project_path, base);
    assert_eq!(layout.metadata.clone(), layout.metadata);
}

#[test]
fn white_space_is_the_listed_code_points() {
    let listed = |n: u32| {
        (0x0009..=0x000D).contains(&n)
            || (0x2000..=0x200A).contains(&n)
            || [0x0020, 0x0085, 0x00A0, 0x1680, 0x2028, 0x2029, 0x202F, 0x205F, 0x3000].contains(&n)
    };
    let mut count = 0;
    for n in 0..=0x10FFFFu32 {
        if let Some(c) = char::from_u32(n) {
            let text = c.to_string();
            assert_eq!(is_blank_text(&text), listed(n), "U+{:04X}", n);
            assert_eq!(c.is_whitespace(), listed(n), "U+{:04X}", n);
            if listed(n) {
                count += 1;
            }
        }
    }
    assert_eq!(count, 25);
}
