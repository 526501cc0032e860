//! Tests of the bitmask decoder and the query builders.

use lexigen::bitmask::{decode_verb_requirement, VERB0, VERB1, VERB2, VERB3, V_BOTH, V_PLUR, V_SING};
use lexigen::query::{build_noun_query, build_noun_query_any, build_verb_query, usize_to_string};

#[test]
fn decode_transitive_both_singular() {
    let (conditions, needs_particle) = decode_verb_requirement(VERB2 | V_BOTH | V_SING);
    assert_eq!(conditions, vec![(2, 0), (2, 1)]);
    assert!(needs_particle);
}

#[test]
fn decode_is_idempotent() {
    for vt in [VERB2 | V_BOTH | V_SING, VERB1 | V_BOTH, 0u8, 0xffu8, V_PLUR] {
        let first = decode_verb_requirement(vt);
        let second = decode_verb_requirement(vt);
        assert_eq!(first, second);
    }
}

#[test]
fn decode_emits_the_full_cross_product() {
    let (conditions, needs_particle) = decode_verb_requirement(VERB1 | VERB2 | V_SING | V_PLUR);
    assert_eq!(conditions, vec![(1, 1), (1, 2), (2, 1), (2, 2)]);
    assert!(needs_particle);
}

#[test]
fn decode_intransitive_needs_no_particle() {
    let (conditions, needs_particle) = decode_verb_requirement(VERB1 | V_BOTH);
    assert_eq!(conditions, vec![(1, 0)]);
    assert!(!needs_particle);
}

#[test]
fn decode_avalent_and_ditransitive() {
    let (conditions, needs_particle) = decode_verb_requirement(VERB0 | V_BOTH);
    assert_eq!(conditions, vec![(0, 0)]);
    assert!(!needs_particle);
    let (conditions, needs_particle) = decode_verb_requirement(VERB3 | V_SING);
    assert_eq!(conditions, vec![(3, 1)]);
    assert!(needs_particle);
}

#[test]
fn decode_empty_plurality_nibble() {
    let (conditions, needs_particle) = decode_verb_requirement(VERB2);
    assert!(conditions.is_empty());
    assert!(needs_particle);
}

#[test]
fn decode_zero() {
    let (conditions, needs_particle) = decode_verb_requirement(0);
    assert!(conditions.is_empty());
    assert!(!needs_particle);
}

#[test]
fn verb_query_single_transitive() {
    assert_eq!(
        build_verb_query(&[VERB2 | V_BOTH | V_SING]),
        "SELECT ainu, jpan, particle FROM verbs WHERE (trans = 2 AND plur = 0 OR trans = 2 AND plur = 1) AND particle <> '' ORDER BY RANDOM() LIMIT 1"
    );
}

#[test]
fn verb_query_without_particle_filter() {
    assert_eq!(
        build_verb_query(&[VERB1 | V_BOTH]),
        "SELECT ainu, jpan, particle FROM verbs WHERE (trans = 1 AND plur = 0) ORDER BY RANDOM() LIMIT 1"
    );
}

#[test]
fn verb_query_for_two_slots_is_one_query() {
    assert_eq!(
        build_verb_query(&[VERB1 | V_BOTH, VERB2 | V_SING]),
        "SELECT ainu, jpan, particle FROM verbs WHERE (trans = 1 AND plur = 0 OR trans = 2 AND plur = 1) AND particle <> '' ORDER BY RANDOM() LIMIT 2"
    );
}

#[test]
fn verb_query_with_empty_filter() {
    assert_eq!(
        build_verb_query(&[V_BOTH]),
        "SELECT ainu, jpan, particle FROM verbs WHERE () ORDER BY RANDOM() LIMIT 1"
    );
}

#[test]
fn noun_query_single_wildcard_pair() {
    let noun_types = vec![("%".to_string(), "%".to_string())];
    assert_eq!(
        build_noun_query(&noun_types),
        "SELECT ainu, jpan FROM nouns WHERE cat1 LIKE '%' OR cat2 LIKE '%' ORDER BY RANDOM() LIMIT 1"
    );
}

#[test]
fn noun_query_two_category_pairs() {
    let noun_types = vec![
        ("動物".to_string(), "動物".to_string()),
        ("植物".to_string(), "植物".to_string()),
    ];
    assert_eq!(
        build_noun_query(&noun_types),
        "SELECT ainu, jpan FROM nouns WHERE cat1 LIKE '動物' OR cat2 LIKE '動物' OR cat1 LIKE '植物' OR cat2 LIKE '植物' ORDER BY RANDOM() LIMIT 2"
    );
}

#[test]
fn noun_query_count_only() {
    assert_eq!(
        build_noun_query_any(3),
        "SELECT ainu, jpan FROM nouns ORDER BY RANDOM() LIMIT 3"
    );
}

#[test]
fn decimal_numerals() {
    assert_eq!(usize_to_string(0), "0");
    assert_eq!(usize_to_string(7), "7");
    assert_eq!(usize_to_string(10), "10");
    assert_eq!(usize_to_string(345), "345");
    assert_eq!(usize_to_string(1000), "1000");
    assert_eq!(usize_to_string(23999), "23999");
}
