//! Tests of the selectors and the generation loop against an in-memory
//! lexicon store.

use lexigen::bitmask::{VERB1, VERB2, V_BOTH, V_SING};
use lexigen::driver::{generate_batch, GenerateError};
use lexigen::selector::{get_nouns, get_nouns_any, get_verbs};
use lexigen::templates::{Piece, SentenceTemplate};
use rusqlite::Connection;

fn lexicon() -> Connection {
    let conn = Connection::open_in_memory().unwrap();
    conn.execute_batch(
        "CREATE TABLE verbs (ainu TEXT, jpan TEXT, particle TEXT, trans INTEGER, plur INTEGER);
         CREATE TABLE nouns (ainu TEXT, jpan TEXT, cat1 TEXT, cat2 TEXT);",
    )
    .unwrap();
    conn
}

#[test]
fn empty_requirements_issue_no_query() {
    // The connection has no tables at all, so any issued query would
    // fail; succeeding proves none was issued.
    let conn = Connection::open_in_memory().unwrap();
    let verbs = get_verbs(&conn, &[]).unwrap();
    assert!(verbs.0.is_empty() && verbs.1.is_empty() && verbs.2.is_empty());
    let nouns = get_nouns(&conn, &[]).unwrap();
    assert!(nouns.0.is_empty() && nouns.1.is_empty());
    let nouns = get_nouns_any(&conn, 0).unwrap();
    assert!(nouns.0.is_empty() && nouns.1.is_empty());
}

#[test]
fn two_slots_against_one_row_yield_one_row() {
    let conn = lexicon();
    conn.execute_batch("INSERT INTO verbs VALUES ('kar','作る','を',2,0);").unwrap();
    let requirements = [VERB2 | V_BOTH | V_SING, VERB2 | V_BOTH | V_SING];
    let (ainu, jpan, particles) = get_verbs(&conn, &requirements).unwrap();
    assert_eq!(ainu, vec!["kar".to_string()]);
    assert_eq!(jpan, vec!["作る".to_string()]);
    assert_eq!(particles, vec!["を".to_string()]);
}

#[test]
fn particle_filter_excludes_bare_rows() {
    let conn = lexicon();
    conn.execute_batch("INSERT INTO verbs VALUES ('ipe','食べる','',2,1);").unwrap();
    let (ainu, _, _) = get_verbs(&conn, &[VERB2 | V_SING]).unwrap();
    assert!(ainu.is_empty());
    conn.execute_batch("INSERT INTO verbs VALUES ('kar','作る','を',2,1);").unwrap();
    let (ainu, jpan, particles) = get_verbs(&conn, &[VERB2 | V_SING]).unwrap();
    assert_eq!(ainu, vec!["kar".to_string()]);
    assert_eq!(jpan, vec!["作る".to_string()]);
    assert_eq!(particles, vec!["を".to_string()]);
}

#[test]
fn intransitive_rows_need_no_particle() {
    let conn = lexicon();
    conn.execute_batch("INSERT INTO verbs VALUES ('mokor','眠る','',1,0);").unwrap();
    let (ainu, jpan, particles) = get_verbs(&conn, &[VERB1 | V_BOTH]).unwrap();
    assert_eq!(ainu, vec!["mokor".to_string()]);
    assert_eq!(jpan, vec!["眠る".to_string()]);
    assert_eq!(particles, vec!["".to_string()]);
}

#[test]
fn empty_filter_is_a_loud_query_error() {
    let conn = lexicon();
    let err = get_verbs(&conn, &[V_BOTH]).unwrap_err();
    assert_eq!(
        err.query,
        "SELECT ainu, jpan, particle FROM verbs WHERE () ORDER BY RANDOM() LIMIT 1"
    );
    assert!(!err.message.is_empty());
}

#[test]
fn noun_selection_respects_categories() {
    let conn = lexicon();
    conn.execute_batch(
        "INSERT INTO nouns VALUES ('cep','魚','動物','動物');
         INSERT INTO nouns VALUES ('cise','家','人工物','建物');",
    )
    .unwrap();
    let animal = vec![("動物".to_string(), "動物".to_string())];
    let (ainu, jpan) = get_nouns(&conn, &animal).unwrap();
    assert_eq!(ainu, vec!["cep".to_string()]);
    assert_eq!(jpan, vec!["魚".to_string()]);
    let plant = vec![("植物".to_string(), "植物".to_string())];
    let (ainu, jpan) = get_nouns(&conn, &plant).unwrap();
    assert!(ainu.is_empty() && jpan.is_empty());
}

#[test]
fn second_category_column_can_match() {
    let conn = lexicon();
    conn.execute_batch("INSERT INTO nouns VALUES ('cise','家','人工物','建物');").unwrap();
    let requirement = vec![("SKIP".to_string(), "建物".to_string())];
    let (ainu, _) = get_nouns(&conn, &requirement).unwrap();
    assert_eq!(ainu, vec!["cise".to_string()]);
}

#[test]
fn count_only_mode_ignores_categories() {
    let conn = lexicon();
    conn.execute_batch(
        "INSERT INTO nouns VALUES ('cep','魚','動物','動物');
         INSERT INTO nouns VALUES ('cise','家','人工物','建物');",
    )
    .unwrap();
    let (ainu, jpan) = get_nouns_any(&conn, 2).unwrap();
    assert_eq!(ainu.len(), 2);
    assert_eq!(jpan.len(), 2);
    let (ainu, _) = get_nouns_any(&conn, 5).unwrap();
    assert_eq!(ainu.len(), 2);
}

#[test]
fn single_candidate_lexicon_is_deterministic() {
    let conn = lexicon();
    conn.execute_batch(
        "INSERT INTO verbs VALUES ('verbA','verbB','particleX',2,1);
         INSERT INTO nouns VALUES ('nounA','nounB','cat','cat');",
    )
    .unwrap();
    let template = SentenceTemplate {
        verb_types: vec![VERB2 | V_SING],
        noun_types: vec![("%".to_string(), "%".to_string())],
        ainu_form: vec![Piece::Noun(0), Piece::Lit(" ".to_string()), Piece::Verb(0)],
        jpan_form: vec![Piece::Noun(0), Piece::Particle(0), Piece::Verb(0)],
    };
    let lines = generate_batch(&conn, &vec![template], 1).unwrap();
    assert_eq!(lines, vec!["0\tnounA verbA\tnounBparticleXverbB".to_string()]);
}

#[test]
fn short_verb_sample_aborts_rendering() {
    let conn = lexicon();
    conn.execute_batch("INSERT INTO verbs VALUES ('verbA','verbB','particleX',2,1);").unwrap();
    let requirements = vec![VERB2 | V_SING, VERB2 | V_SING];
    let (ainu, _, _) = get_verbs(&conn, &requirements).unwrap();
    assert_eq!(ainu.len(), 1);
    let template = SentenceTemplate {
        verb_types: requirements,
        noun_types: vec![],
        ainu_form: vec![Piece::Verb(0), Piece::Verb(1)],
        jpan_form: vec![Piece::Verb(0), Piece::Verb(1)],
    };
    let err = generate_batch(&conn, &vec![template], 1).unwrap_err();
    assert!(matches!(err, GenerateError::Mismatch));
}

#[test]
fn batch_of_three_numbers_lines_in_order() {
    let conn = lexicon();
    conn.execute_batch("INSERT INTO nouns VALUES ('cep','魚','動物','動物');").unwrap();
    let template = SentenceTemplate {
        verb_types: vec![],
        noun_types: vec![("%".to_string(), "%".to_string())],
        ainu_form: vec![Piece::Noun(0)],
        jpan_form: vec![Piece::Noun(0)],
    };
    let lines = generate_batch(&conn, &vec![template], 3).unwrap();
    assert_eq!(
        lines,
        vec![
            "0\tcep\t魚".to_string(),
            "1\tcep\t魚".to_string(),
            "2\tcep\t魚".to_string(),
        ]
    );
}

#[test]
fn query_failure_aborts_the_run() {
    // No tables: the verb query must fail and abort the whole run.
    let conn = Connection::open_in_memory().unwrap();
    let template = SentenceTemplate {
        verb_types: vec![VERB2 | V_SING],
        noun_types: vec![],
        ainu_form: vec![],
        jpan_form: vec![],
    };
    let err = generate_batch(&conn, &vec![template], 1).unwrap_err();
    match err {
        GenerateError::Query(q) => {
            assert!(q.query.starts_with("SELECT ainu, jpan, particle FROM verbs"));
            assert!(!q.message.is_empty());
        },
        GenerateError::Mismatch => panic!("expected a query error"),
    }
}
