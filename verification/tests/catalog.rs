//! Tests of the template catalog and the renderer.

use lexigen::bitmask::{VERB2, V_BOTH, V_SING};
use lexigen::render::{render_pieces, render_template};
use lexigen::templates::{get_templates, Piece, SentenceTemplate};

#[test]
fn catalog_has_twenty_five_templates() {
    assert_eq!(get_templates().len(), 25);
}

#[test]
fn first_template_contents() {
    let ts = get_templates();
    assert_eq!(ts[0].verb_types, vec![VERB2 | V_BOTH | V_SING]);
    assert_eq!(ts[0].noun_types, vec![("%".to_string(), "%".to_string())]);
    assert_eq!(
        ts[0].ainu_form,
        vec![
            Piece::Noun(0),
            Piece::Lit(" ku= ".to_string()),
            Piece::Verb(0),
            Piece::Lit(".".to_string()),
        ]
    );
    assert_eq!(
        ts[0].jpan_form,
        vec![
            Piece::Lit("私が".to_string()),
            Piece::Noun(0),
            Piece::Particle(0),
            Piece::Verb(0),
            Piece::Lit("。".to_string()),
        ]
    );
}

#[test]
fn last_template_uses_two_verb_slots() {
    let ts = get_templates();
    let t = &ts[24];
    assert_eq!(t.verb_types.len(), 2);
    assert!(t.noun_types.is_empty());
    assert_eq!(
        t.ainu_form,
        vec![Piece::Verb(0), Piece::Lit(" kusu ku= ".to_string()), Piece::Verb(1)]
    );
    assert_eq!(
        t.jpan_form,
        vec![Piece::Verb(0), Piece::Lit("ので私は".to_string()), Piece::Verb(1)]
    );
}

#[test]
fn giving_template_contents() {
    let ts = get_templates();
    let t = &ts[23];
    assert!(t.verb_types.is_empty());
    assert_eq!(t.noun_types, vec![("人工物".to_string(), "SKIP".to_string())]);
    assert_eq!(
        t.ainu_form,
        vec![Piece::Noun(0), Piece::Lit(" e=kore yan.".to_string())]
    );
    assert_eq!(
        t.jpan_form,
        vec![Piece::Noun(0), Piece::Lit("をあげて下さい。".to_string())]
    );
}

#[test]
fn every_template_declares_at_most_two_slots_of_each_kind() {
    for t in get_templates() {
        assert!(t.verb_types.len() <= 2);
        assert!(t.noun_types.len() <= 2);
    }
}

#[test]
fn render_first_template() {
    let ts = get_templates();
    let out = render_template(
        &ts[0],
        &vec!["ipe".to_string()],
        &vec!["食べる".to_string()],
        &vec!["を".to_string()],
        &vec!["cep".to_string()],
        &vec!["魚".to_string()],
    )
    .unwrap();
    assert_eq!(out.0, "cep ku= ipe.");
    assert_eq!(out.1, "私が魚を食べる。");
}

#[test]
fn render_fails_when_a_slot_is_missing() {
    let ts = get_templates();
    let out = render_template(
        &ts[24],
        &vec!["an".to_string()],
        &vec!["ある".to_string()],
        &vec![String::new()],
        &vec![],
        &vec![],
    );
    assert!(out.is_none());
}

#[test]
fn ainu_form_cannot_reach_particles() {
    let t = SentenceTemplate {
        verb_types: vec![VERB2 | V_BOTH | V_SING],
        noun_types: vec![],
        ainu_form: vec![Piece::Particle(0)],
        jpan_form: vec![],
    };
    let out = render_template(
        &t,
        &vec!["kar".to_string()],
        &vec!["作る".to_string()],
        &vec!["を".to_string()],
        &vec![],
        &vec![],
    );
    assert!(out.is_none());
}

#[test]
fn render_pieces_literal_only() {
    let out = render_pieces(
        &vec![Piece::Lit("toanpe ".to_string()), Piece::Lit("ne wa.".to_string())],
        &vec![],
        &vec![],
        &vec![],
    );
    assert_eq!(out.unwrap(), "toanpe ne wa.");
}

#[test]
fn render_no_pieces_yields_empty_text() {
    let out = render_pieces(&vec![], &vec![], &vec![], &vec![]);
    assert_eq!(out.unwrap(), "");
}
