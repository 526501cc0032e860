//! Selection of verb and noun rows from the lexicon store.
//!
//! A whole requirement sequence becomes one selection query (built in
//! `query`) that the store answers with pseudo-randomly ordered rows,
//! limited to one row per requirement; the selectors collect the drawn
//! rows, column-aligned, in draw order. Slot assignment is purely
//! positional: the single limited query guarantees that every drawn row
//! satisfies the aggregate filter, not that each individual requirement
//! is individually satisfied. An empty requirement sequence issues no
//! query at all. Fewer rows than requirements is not an error here: the
//! store may hold too few matching rows, and the shortage surfaces
//! later, when rendering finds a slot unfilled.
//!
//! What a drawn row holds depends on the lexicon contents and on the
//! store's random ordering, so nothing is promised about the returned
//! text beyond its alignment and count; the store is trusted to answer
//! each query and nothing more. The selectors consume at most one drawn
//! row per requirement, whatever the store hands back.

use vstd::prelude::*;
use vstd::string::*;

use crate::query::{
    build_noun_query, build_noun_query_any, build_verb_query, noun_query, noun_query_any,
    verb_query,
};

verus! {

#[verifier::external_type_specification]
#[verifier::external_body]
pub struct ExConnection(rusqlite::Connection);

#[verifier::external_type_specification]
#[verifier::external_body]
pub struct ExSqlError(rusqlite::Error);

/// A failed selection query: the query that failed and the store's
/// diagnostic text.
#[derive(Debug)]
pub struct QueryError {
    pub query: String,
    pub message: String,
}

/// Relies on rusqlite's `Connection::prepare`, `Statement::query` and
/// `Rows::next` to run one selection query against the verbs relation,
/// and on `Row::get` to read its three text columns; hands back the
/// drawn rows in draw order.
#[verifier::external_body]
fn fetch_verb_rows(conn: &rusqlite::Connection, sql: &str) -> (r: Result<
    Vec<(String, String, String)>,
    rusqlite::Error,
>) {
    let mut stmt = conn.prepare(sql)?;
    let mut rows = stmt.query([])?;
    let mut out = Vec::new();
    while let Some(row) = rows.next()? {
        out.push((row.get(0)?, row.get(1)?, row.get(2)?));
    }
    Ok(out)
}

/// Relies on rusqlite's `Connection::prepare`, `Statement::query` and
/// `Rows::next` to run one selection query against the nouns relation,
/// and on `Row::get` to read its two text columns; hands back the drawn
/// rows in draw order.
#[verifier::external_body]
fn fetch_noun_rows(conn: &rusqlite::Connection, sql: &str) -> (r: Result<
    Vec<(String, String)>,
    rusqlite::Error,
>) {
    let mut stmt = conn.prepare(sql)?;
    let mut rows = stmt.query([])?;
    let mut out = Vec::new();
    while let Some(row) = rows.next()? {
        out.push((row.get(0)?, row.get(1)?));
    }
    Ok(out)
}

/// Relies on rusqlite's `Display` implementation for `Error` to turn a
/// failed query's error into its diagnostic text.
#[verifier::external_body]
fn describe_error(e: &rusqlite::Error) -> String {
    format!("{}", e)
}

/// Draws up to one verb row per requirement, all from one limited
/// pseudo-random query over the sequence's aggregate filter: the Ainu
/// forms, the Japanese forms and the particles of the drawn rows,
/// column-aligned in draw order. An empty requirement sequence issues
/// no query and yields three empty sequences. A store holding too few
/// matching rows yields fewer rows; a query the store rejects aborts
/// the selection with that query named.
pub fn get_verbs(conn: &rusqlite::Connection, verb_types: &[u8]) -> (r: Result<
    (Vec<String>, Vec<String>, Vec<String>),
    QueryError,
>)
    ensures
        r matches Ok(v) ==> v.0@.len() == v.1@.len() && v.1@.len() == v.2@.len() && v.0@.len()
            <= verb_types@.len(),
        verb_types@.len() == 0 ==> (r matches Ok(v) && v.0@.len() == 0),
        r matches Err(e) ==> e.query@ == verb_query(verb_types@),
{
    let n = verb_types.len();
    if n == 0 {
        return Ok((Vec::new(), Vec::new(), Vec::new()));
    }
    let query = build_verb_query(verb_types);
    let rows = match fetch_verb_rows(conn, query.as_str()) {
        Ok(rows) => rows,
        Err(e) => {
            let message = describe_error(&e);
            return Err(QueryError { query, message });
        },
    };
    Ok(collect_verb_rows(rows, n))
}

/// Splits the first `n` drawn verb rows (or all of them, if fewer came
/// back) into their three column sequences, in draw order.
fn collect_verb_rows(rows: Vec<(String, String, String)>, n: usize) -> (r: (
    Vec<String>,
    Vec<String>,
    Vec<String>,
))
    ensures
        r.0@.len() == r.1@.len() && r.1@.len() == r.2@.len(),
        r.0@.len() == if rows@.len() < n {
            rows@.len() as int
        } else {
            n as int
        },
        forall|k: int| 0 <= k < r.0@.len() ==> (#[trigger] r.0@[k]) == rows@[k].0,
        forall|k: int| 0 <= k < r.1@.len() ==> (#[trigger] r.1@[k]) == rows@[k].1,
        forall|k: int| 0 <= k < r.2@.len() ==> (#[trigger] r.2@[k]) == rows@[k].2,
{
    let mut verbs_ainu: Vec<String> = Vec::new();
    let mut verbs_jpan: Vec<String> = Vec::new();
    let mut particles: Vec<String> = Vec::new();
    let m = if rows.len() < n {
        rows.len()
    } else {
        n
    };
    let mut k: usize = 0;
    while k < m
        invariant
            m <= n,
            m <= rows@.len(),
            k <= m,
            verbs_ainu@.len() == k,
            verbs_jpan@.len() == k,
            particles@.len() == k,
            forall|j: int| 0 <= j < k ==> (#[trigger] verbs_ainu@[j]) == rows@[j].0,
            forall|j: int| 0 <= j < k ==> (#[trigger] verbs_jpan@[j]) == rows@[j].1,
            forall|j: int| 0 <= j < k ==> (#[trigger] particles@[j]) == rows@[j].2,
        decreases m - k,
    {
        verbs_ainu.push(rows[k].0.clone());
        verbs_jpan.push(rows[k].1.clone());
        particles.push(rows[k].2.clone());
        k = k + 1;
    }
    (verbs_ainu, verbs_jpan, particles)
}

/// Draws up to one noun row per requirement, all from one limited
/// pseudo-random query over the sequence's category conditions: the
/// Ainu forms and the Japanese forms of the drawn rows, column-aligned
/// in draw order. An empty requirement sequence issues no query and
/// yields two empty sequences; shortage and rejection behave as in
/// `get_verbs`.
pub fn get_nouns(conn: &rusqlite::Connection, noun_types: &[(String, String)]) -> (r: Result<
    (Vec<String>, Vec<String>),
    QueryError,
>)
    ensures
        r matches Ok(v) ==> v.0@.len() == v.1@.len() && v.0@.len() <= noun_types@.len(),
        noun_types@.len() == 0 ==> (r matches Ok(v) && v.0@.len() == 0),
        r matches Err(e) ==> e.query@ == noun_query(
            noun_types@.map_values(|c: (String, String)| (c.0@, c.1@)),
        ),
{
    let n = noun_types.len();
    if n == 0 {
        return Ok((Vec::new(), Vec::new()));
    }
    let query = build_noun_query(noun_types);
    let rows = match fetch_noun_rows(conn, query.as_str()) {
        Ok(rows) => rows,
        Err(e) => {
            let message = describe_error(&e);
            return Err(QueryError { query, message });
        },
    };
    Ok(collect_noun_rows(rows, n))
}

/// Draws `count` pseudo-random noun rows with no category filter at
/// all: the count-only selection mode. A zero count issues no query and
/// yields two empty sequences.
pub fn get_nouns_any(conn: &rusqlite::Connection, count: usize) -> (r: Result<
    (Vec<String>, Vec<String>),
    QueryError,
>)
    ensures
        r matches Ok(v) ==> v.0@.len() == v.1@.len() && v.0@.len() <= count,
        count == 0 ==> (r matches Ok(v) && v.0@.len() == 0),
        r matches Err(e) ==> e.query@ == noun_query_any(count as int),
{
    if count == 0 {
        return Ok((Vec::new(), Vec::new()));
    }
    let query = build_noun_query_any(count);
    let rows = match fetch_noun_rows(conn, query.as_str()) {
        Ok(rows) => rows,
        Err(e) => {
            let message = describe_error(&e);
            return Err(QueryError { query, message });
        },
    };
    Ok(collect_noun_rows(rows, count))
}

/// Splits the first `n` drawn noun rows (or all of them, if fewer came
/// back) into their two column sequences, in draw order.
fn collect_noun_rows(rows: Vec<(String, String)>, n: usize) -> (r: (Vec<String>, Vec<String>))
    ensures
        r.0@.len() == r.1@.len(),
        r.0@.len() == if rows@.len() < n {
            rows@.len() as int
        } else {
            n as int
        },
        forall|k: int| 0 <= k < r.0@.len() ==> (#[trigger] r.0@[k]) == rows@[k].0,
        forall|k: int| 0 <= k < r.1@.len() ==> (#[trigger] r.1@[k]) == rows@[k].1,
{
    let mut nouns_ainu: Vec<String> = Vec::new();
    let mut nouns_jpan: Vec<String> = Vec::new();
    let m = if rows.len() < n {
        rows.len()
    } else {
        n
    };
    let mut k: usize = 0;
    while k < m
        invariant
            m <= n,
            m <= rows@.len(),
            k <= m,
            nouns_ainu@.len() == k,
            nouns_jpan@.len() == k,
            forall|j: int| 0 <= j < k ==> (#[trigger] nouns_ainu@[j]) == rows@[j].0,
            forall|j: int| 0 <= j < k ==> (#[trigger] nouns_jpan@[j]) == rows@[j].1,
        decreases m - k,
    {
        nouns_ainu.push(rows[k].0.clone());
        nouns_jpan.push(rows[k].1.clone());
        k = k + 1;
    }
    (nouns_ainu, nouns_jpan)
}

} // verus!
