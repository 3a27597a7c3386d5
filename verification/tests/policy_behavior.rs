use minijinja_render::outcome::encode_text;
use minijinja_render::outcome::format_error_chain;
use minijinja_render::policy::choose_autoescape_policy;
use minijinja_render::policy::normalize_opt_string;
use minijinja_render::policy::parse_undefined_mode;
use minijinja_render::policy::should_escape;
use minijinja_render::policy::str_ends_with;
use minijinja_render::policy::AutoescapePolicy;
use minijinja_render::policy::UndefinedMode;

#[test]
fn mode_strings_map_to_modes() {
    assert_eq!(
        parse_undefined_mode(&Some("strict".to_string())),
        UndefinedMode::Strict
    );
    assert_eq!(
        parse_undefined_mode(&Some("semistrict".to_string())),
        UndefinedMode::SemiStrict
    );
    assert_eq!(
        parse_undefined_mode(&Some("chainable".to_string())),
        UndefinedMode::Chainable
    );
    assert_eq!(
        parse_undefined_mode(&Some("lenient".to_string())),
        UndefinedMode::Lenient
    );
}

#[test]
fn unrecognized_or_absent_mode_is_lenient() {
    assert_eq!(
        parse_undefined_mode(&Some("anything-else".to_string())),
        UndefinedMode::Lenient
    );
    assert_eq!(parse_undefined_mode(&None), UndefinedMode::Lenient);
}

#[test]
fn empty_optional_strings_count_as_absent() {
    assert!(normalize_opt_string(None).is_none());
    assert!(normalize_opt_string(Some(String::new())).is_none());
    assert_eq!(
        normalize_opt_string(Some("dir".to_string())),
        Some("dir".to_string())
    );
}

#[test]
fn autoescape_decision_table() {
    let none = choose_autoescape_policy(false, None);
    assert!(matches!(none, AutoescapePolicy::Never));

    let all = choose_autoescape_policy(true, None);
    assert!(matches!(all, AutoescapePolicy::AlwaysHtml));

    let listed = choose_autoescape_policy(false, Some(vec![".html".to_string()]));
    match &listed {
        AutoescapePolicy::Suffixes(v) => assert_eq!(v, &vec![".html".to_string()]),
        _ => panic!("a supplied list must select suffix-based escaping"),
    }

    // The list wins over the flag, even when it is empty.
    let empty_listed = choose_autoescape_policy(true, Some(Vec::new()));
    match &empty_listed {
        AutoescapePolicy::Suffixes(v) => assert!(v.is_empty()),
        _ => panic!("a supplied list must win over the plain flag"),
    }
}

#[test]
fn suffix_matching_decides_escaping() {
    let p = AutoescapePolicy::Suffixes(vec![".html".to_string(), ".xml".to_string()]);
    assert!(should_escape(&p, "index.html"));
    assert!(should_escape(&p, "feed.xml"));
    assert!(!should_escape(&p, "notes.txt"));
    assert!(!should_escape(&p, "html"));
    assert!(should_escape(&AutoescapePolicy::AlwaysHtml, "notes.txt"));
    assert!(!should_escape(&AutoescapePolicy::Never, "index.html"));
}

#[test]
fn suffix_check_compares_tails() {
    assert!(str_ends_with("greet.txt", ".txt"));
    assert!(str_ends_with("a", ""));
    assert!(str_ends_with("", ""));
    assert!(!str_ends_with(".txt", "greet.txt"));
    assert!(!str_ends_with("greet.txt", ".TXT"));
}

#[test]
fn error_chain_formats_one_line_per_cause() {
    let msgs = vec!["boom".to_string(), "io failed".to_string(), "root".to_string()];
    assert_eq!(
        format_error_chain(&msgs),
        "MiniJinja render error: boom\nCaused by: io failed\nCaused by: root\n"
    );
    let one = vec!["just this".to_string()];
    assert_eq!(format_error_chain(&one), "MiniJinja render error: just this\n");
}

#[test]
fn encode_text_passes_clean_text_through() {
    assert_eq!(encode_text("clean message".to_string()), "clean message");
}

#[test]
fn encode_text_degrades_embedded_null() {
    assert_eq!(
        encode_text("bad\0message".to_string()),
        "render error (message contained null byte)"
    );
}
