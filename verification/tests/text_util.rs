//! Tests of the small text utilities used by the flattener and renderer.

use ydict::render::title_line;
use ydict::text::{center, join_semi, str_eq, trim_ws};

#[test]
fn trim_removes_leading_and_trailing_whitespace() {
    assert_eq!(trim_ws("  a b  "), "a b");
    assert_eq!(trim_ws("\t\r\n x \n"), "x");
    assert_eq!(trim_ws("   "), "");
    assert_eq!(trim_ws(""), "");
    assert_eq!(trim_ws("plain"), "plain");
}

#[test]
fn center_pads_with_the_extra_space_on_the_right() {
    assert_eq!(center("ab", 8), "   ab   ");
    assert_eq!(center("Wiki", 8), "  Wiki  ");
    assert_eq!(center("abc", 8), "  abc   ");
    assert_eq!(center("Translation", 8), "Translation");
}

#[test]
fn join_inserts_separator_between_neighbours() {
    assert_eq!(join_semi(&vec![]), "");
    assert_eq!(join_semi(&vec!["a".to_string()]), "a");
    assert_eq!(join_semi(&vec!["a".to_string(), "b".to_string()]), "a; b");
}

#[test]
fn title_line_centers_short_titles() {
    assert_eq!(title_line("Wiki"), "========  Wiki  ========");
    assert_eq!(title_line("Translation"), "========Translation========");
}

#[test]
fn str_eq_compares_by_characters() {
    assert!(str_eq("abc", "abc"));
    assert!(!str_eq("abc", "abd"));
    assert!(!str_eq("abc", "ab"));
}
