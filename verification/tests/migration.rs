use zaps::migration::{
    migration_file_name, migration_template, sanitize_description, timestamp_taken,
};
use zaps::text::{ends_with, is_text, starts_with, strip_prefix, to_ascii_lower};

/// What std makes of a description, step by step.
fn by_std(description: &str) -> String {
    description
        .chars()
        .map(|c| if c.is_alphanumeric() || c == '_' { c.to_ascii_lowercase() } else { '_' })
        .collect::<String>()
        .trim_matches('_')
        .replace("__", "_")
}

#[test]
fn descriptions_become_file_name_parts() {
    assert_eq!(sanitize_description("add_user_preferences"), "add_user_preferences");
    assert_eq!(sanitize_description("Add User Preferences"), "add_user_preferences");
    assert_eq!(sanitize_description("add-users!"), "add_users");
    assert_eq!(sanitize_description("  padded  "), "padded");
    assert_eq!(sanitize_description("__x__"), "x");
    assert_eq!(sanitize_description("a__b"), "a_b");
    assert_eq!(sanitize_description("a___b"), "a__b");
    assert_eq!(sanitize_description("a____b"), "a__b");
    assert_eq!(sanitize_description("a_____b"), "a___b");
    assert_eq!(sanitize_description("a - b"), "a__b");
    assert_eq!(sanitize_description(""), "");
    assert_eq!(sanitize_description("___"), "");
    assert_eq!(sanitize_description("!!!"), "");
    assert_eq!(sanitize_description("V2"), "v2");
    assert_eq!(sanitize_description("Ünïcode Ω"), "Ünïcode_Ω");
    assert_eq!(sanitize_description("x"), "x");
    assert_eq!(sanitize_description("_"), "");
}

#[test]
fn descriptions_are_sanitized_as_std_does_it() {
    let samples = [
        "add_user_preferences",
        "Create Table: users (v2)",
        "___lead and trail___",
        "a__b___c____d_____e",
        "É-café 42",
        "ǅ mixed Ǆ",
        "tab\tand\nnewline",
        "１２３ full width",
        "-_-_-",
        "_a_",
        "__",
        "",
    ];
    for sample in samples {
        assert_eq!(sanitize_description(sample), by_std(sample), "{:?}", sample);
    }
}

#[test]
fn a_timestamp_is_taken_by_a_migration_that_begins_with_it() {
    let names = vec![
        "20240101120000_init.sql".to_string(),
        "20240202120000_users.txt".to_string(),
        "README.md".to_string(),
    ];
    assert!(timestamp_taken(&names, "20240101120000"));
    assert!(timestamp_taken(&names, "2024"));
    assert!(timestamp_taken(&names, ""));
    assert!(!timestamp_taken(&names, "20240202120000"));
    assert!(!timestamp_taken(&names, "20250101120000"));
    assert!(!timestamp_taken(&names, "0240101120000"));
    assert!(!timestamp_taken(&Vec::new(), "20240101120000"));
    assert!(!timestamp_taken(&vec!["README.md".to_string()], ""));
    assert!(timestamp_taken(&vec![".sql".to_string()], ""));
    assert!(!timestamp_taken(&vec![".sql".to_string()], ".sqlx"));
}

#[test]
fn a_migration_file_is_named_by_timestamp_and_description() {
    assert_eq!(migration_file_name("20240101120000", "add_users"), "20240101120000_add_users.sql");
    assert_eq!(migration_file_name("", ""), "_.sql");
}

#[test]
fn a_migration_file_starts_from_the_template() {
    assert_eq!(
        migration_template("add_users", "2024-01-01 12:00:00 UTC"),
        "-- Migration: add_users\n-- Created: 2024-01-01 12:00:00 UTC\n\n-- Add your migration SQL here\n\n"
    );
}

#[test]
fn texts_are_compared_by_their_characters() {
    assert!(is_text("abc", "abc"));
    assert!(!is_text("abc", "abd"));
    assert!(!is_text("abc", "ab"));
    assert!(is_text("", ""));
    assert!(is_text("é", "é"));
    assert!(starts_with("héllo", "hé"));
    assert!(starts_with("hello", ""));
    assert!(!starts_with("he", "hello"));
    assert!(!starts_with("hello", "el"));
    assert!(ends_with("héllo", "llo"));
    assert!(ends_with("hello", ""));
    assert!(!ends_with("lo", "hello"));
    assert!(!ends_with("hello", "hell"));
    assert_eq!(strip_prefix("héllo wörld", "héllo "), Some("wörld"));
    assert_eq!(strip_prefix("hello", "hello"), Some(""));
    assert_eq!(strip_prefix("hello", "world"), None);
    assert_eq!(to_ascii_lower('A'), 'a');
    assert_eq!(to_ascii_lower('Z'), 'z');
    assert_eq!(to_ascii_lower('a'), 'a');
    assert_eq!(to_ascii_lower('@'), '@');
    assert_eq!(to_ascii_lower('['), '[');
    assert_eq!(to_ascii_lower('É'), 'É');
}
