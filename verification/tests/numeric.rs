//! Numeric extraction and composite-field splitting.

use ffxiv_tracker::text::{parse_count, parse_exp, parse_level, split2_trimmed, str_eq};

#[test]
fn thousands_separators_are_stripped() {
    assert_eq!(parse_count("12,345"), Some(12345));
    assert_eq!(parse_count("1,076,101"), Some(1076101));
    assert_eq!(parse_count("0"), Some(0));
}

#[test]
fn surrounding_whitespace_is_stripped() {
    assert_eq!(parse_count("  42  "), Some(42));
    assert_eq!(parse_count("\t7\n"), Some(7));
}

#[test]
fn non_numeric_content_is_no_number() {
    assert_eq!(parse_count(""), None);
    assert_eq!(parse_count("   "), None);
    assert_eq!(parse_count("abc"), None);
    assert_eq!(parse_count("12 345"), None);
    assert_eq!(parse_count("-5"), None);
}

#[test]
fn values_beyond_u64_do_not_parse() {
    assert_eq!(parse_count("18,446,744,073,709,551,615"), Some(u64::MAX));
    assert_eq!(parse_count("18,446,744,073,709,551,616"), None);
}

#[test]
fn level_placeholder_is_no_level() {
    assert_eq!(parse_level("-"), Ok(None));
    assert_eq!(parse_level(" - "), Ok(None));
}

#[test]
fn level_numbers_parse() {
    assert_eq!(parse_level("90"), Ok(Some(90)));
    assert_eq!(parse_level(" 100 "), Ok(Some(100)));
}

#[test]
fn level_garbage_is_malformed() {
    assert_eq!(parse_level("--"), Err(()));
    assert_eq!(parse_level("ninety"), Err(()));
    assert_eq!(parse_level(""), Err(()));
}

#[test]
fn experience_pair_parses_with_current_at_most_max() {
    assert_eq!(parse_exp("100/200"), Ok(Some((100, 200))));
    assert_eq!(parse_exp("1,123 / 2,500"), Ok(Some((1123, 2500))));
    assert_eq!(parse_exp("200/200"), Ok(Some((200, 200))));
}

#[test]
fn experience_placeholder_is_no_pair() {
    assert_eq!(parse_exp("--/--"), Ok(None));
    assert_eq!(parse_exp("-- / --"), Ok(None));
}

#[test]
fn truncated_experience_is_not_silently_accepted() {
    assert_eq!(parse_exp("100/"), Err(()));
    assert_eq!(parse_exp("/200"), Err(()));
    assert_eq!(parse_exp("100"), Err(()));
    assert_eq!(parse_exp("1/2/3"), Err(()));
    assert_eq!(parse_exp("--/200"), Err(()));
    assert_eq!(parse_exp("300/200"), Err(()));
}

#[test]
fn slash_fields_split_into_exactly_two_trimmed_parts() {
    assert_eq!(
        split2_trimmed("Order of the Twin Adder / Serpent Private"),
        Some(("Order of the Twin Adder".to_string(), "Serpent Private".to_string()))
    );
    assert_eq!(
        split2_trimmed("Plainsfolk / Female"),
        Some(("Plainsfolk".to_string(), "Female".to_string()))
    );
    assert_eq!(split2_trimmed("no delimiter"), None);
    assert_eq!(split2_trimmed("a/b/c"), None);
}

#[test]
fn string_equality_is_exact() {
    assert!(str_eq("Dark Knight", "Dark Knight"));
    assert!(!str_eq("Dark Knight", "Dark Knigh"));
    assert!(!str_eq("Dark Knight", "dark knight"));
    assert!(!str_eq("", "x"));
    assert!(str_eq("", ""));
}
