//! Tests of the category pattern matching.

use lexigen::patterns::{noun_row_matches, wildcard_match};

#[test]
fn wildcard_matches_everything() {
    assert!(wildcard_match("%", ""));
    assert!(wildcard_match("%", "動物"));
    assert!(wildcard_match("%", "anything at all"));
}

#[test]
fn exact_literal_matches_itself_only() {
    assert!(wildcard_match("動物", "動物"));
    assert!(!wildcard_match("動物", "植物"));
    assert!(!wildcard_match("動物", ""));
    assert!(wildcard_match("", ""));
    assert!(!wildcard_match("", "x"));
}

#[test]
fn infix_wildcard() {
    assert!(wildcard_match("a%b", "ab"));
    assert!(wildcard_match("a%b", "axxb"));
    assert!(!wildcard_match("a%b", "ax"));
    assert!(wildcard_match("%b", "xyzb"));
    assert!(!wildcard_match("%b", "xyz"));
}

#[test]
fn double_wildcard_requirement_matches_any_row() {
    assert!(noun_row_matches("%", "%", "動物", "植物"));
    assert!(noun_row_matches("%", "%", "", ""));
    assert!(noun_row_matches("%", "%", "cat", "cat"));
}

#[test]
fn unknown_category_matches_nothing() {
    assert!(!noun_row_matches("人工物", "SKIP", "動物", "動物"));
    assert!(!noun_row_matches("不明", "不明", "動物", "植物"));
}

#[test]
fn noun_matching_is_disjunctive_by_column() {
    assert!(noun_row_matches("動物", "SKIP", "動物", "x"));
    assert!(noun_row_matches("SKIP", "建物", "x", "建物"));
    assert!(!noun_row_matches("動物", "建物", "建物", "動物"));
}
