//! Construction of the lexicon selection queries.
//!
//! A whole requirement sequence becomes one selection query: the decoded
//! (transitivity, plurality) conditions of every requirement are joined
//! with `OR` into one filter, a particle demand anywhere in the sequence
//! appends a non-empty-particle conjunct, and the store draws rows in
//! pseudo-random order, limited to one row per requirement. The single
//! limited query is deliberate: it guarantees that every drawn row
//! satisfies the aggregate filter, not that each individual requirement
//! is individually satisfied; slot assignment is purely positional, by
//! draw order. Noun requirement sequences become one query the same way,
//! filtering the two category columns of each requirement against its
//! two patterns, and a count alone becomes one unfiltered query.
//!
//! A verb requirement whose transitivity or plurality nibble is empty
//! decodes to no conditions, so a sequence of such requirements yields a
//! query with an empty predicate; the store rejects that query, which
//! surfaces as a query-execution error at selection time. Such a
//! requirement is a template-authoring error, and the failure is
//! deliberately loud.

use vstd::prelude::*;
use vstd::string::*;

use crate::bitmask::{
    decode_verb_requirement, needs_particle, seq_conditions, seq_needs_particle,
};

verus! {

/// The decimal digit character for `d` (meaningful for `d < 10`).
pub open spec fn digit_char(d: int) -> char {
    if d == 0 {
        '0'
    } else if d == 1 {
        '1'
    } else if d == 2 {
        '2'
    } else if d == 3 {
        '3'
    } else if d == 4 {
        '4'
    } else if d == 5 {
        '5'
    } else if d == 6 {
        '6'
    } else if d == 7 {
        '7'
    } else if d == 8 {
        '8'
    } else {
        '9'
    }
}

/// The decimal numeral of `n`, most significant digit first.
pub open spec fn dec_digits(n: int) -> Seq<char>
    decreases n,
{
    if n < 10 {
        seq![digit_char(n)]
    } else {
        dec_digits(n / 10) + seq![digit_char(n % 10)]
    }
}

/// The single decimal digit `d` as text.
fn digit_str(d: usize) -> (r: &'static str)
    requires
        d < 10,
    ensures
        r@ == seq![digit_char(d as int)],
{
    proof {
        reveal_strlit("0");
        reveal_strlit("1");
        reveal_strlit("2");
        reveal_strlit("3");
        reveal_strlit("4");
        reveal_strlit("5");
        reveal_strlit("6");
        reveal_strlit("7");
        reveal_strlit("8");
        reveal_strlit("9");
    }
    let r = if d == 0 {
        "0"
    } else if d == 1 {
        "1"
    } else if d == 2 {
        "2"
    } else if d == 3 {
        "3"
    } else if d == 4 {
        "4"
    } else if d == 5 {
        "5"
    } else if d == 6 {
        "6"
    } else if d == 7 {
        "7"
    } else if d == 8 {
        "8"
    } else {
        "9"
    };
    assert(r@ =~= seq![digit_char(d as int)]);
    r
}

/// The decimal numeral of `n`, exactly as `dec_digits` states it.
pub fn usize_to_string(n: usize) -> (s: String)
    ensures
        s@ == dec_digits(n as int),
    decreases n,
{
    let d = n % 10;
    let ds = digit_str(d);
    if n < 10 {
        String::from_str(ds)
    } else {
        let mut s = usize_to_string(n / 10);
        s.append(ds);
        s
    }
}

/// The text of one decoded condition: an equality pair on the
/// transitivity and plurality columns.
pub open spec fn condition_text(c: (u8, u8)) -> Seq<char> {
    "trans = "@ + seq![digit_char(c.0 as int)] + " AND plur = "@ + seq![digit_char(c.1 as int)]
}

/// The given condition texts joined with `OR`.
pub open spec fn joined_conditions(parts: Seq<Seq<char>>) -> Seq<char>
    decreases parts.len(),
{
    if parts.len() == 0 {
        Seq::empty()
    } else if parts.len() == 1 {
        parts[0]
    } else {
        joined_conditions(parts.drop_last()) + " OR "@ + parts.last()
    }
}

/// The whole selection query for a verb requirement sequence: the union
/// of every requirement's decoded conditions, the particle conjunct when
/// any requirement demands one, pseudo-random order, and one drawn row
/// per requirement.
pub open spec fn verb_query(vts: Seq<u8>) -> Seq<char> {
    "SELECT ainu, jpan, particle FROM verbs WHERE ("@ + joined_conditions(
        seq_conditions(vts).map_values(|c: (u8, u8)| condition_text(c)),
    ) + ")"@ + (if seq_needs_particle(vts) {
        " AND particle <> ''"@
    } else {
        Seq::empty()
    }) + " ORDER BY RANDOM() LIMIT "@ + dec_digits(vts.len() as int)
}

/// The text of one noun requirement's condition: its two patterns
/// against the two category columns.
pub open spec fn noun_condition_text(c: (Seq<char>, Seq<char>)) -> Seq<char> {
    "cat1 LIKE '"@ + c.0 + "' OR cat2 LIKE '"@ + c.1 + "'"@
}

/// The whole selection query for a noun requirement sequence: every
/// requirement's category condition joined with `OR`, pseudo-random
/// order, and one drawn row per requirement.
pub open spec fn noun_query(nts: Seq<(Seq<char>, Seq<char>)>) -> Seq<char> {
    "SELECT ainu, jpan FROM nouns WHERE "@ + joined_conditions(
        nts.map_values(|c: (Seq<char>, Seq<char>)| noun_condition_text(c)),
    ) + " ORDER BY RANDOM() LIMIT "@ + dec_digits(nts.len() as int)
}

/// The count-only noun selection query: `n` pseudo-random rows from the
/// whole nouns relation, with no category filter at all.
pub open spec fn noun_query_any(n: int) -> Seq<char> {
    "SELECT ainu, jpan FROM nouns ORDER BY RANDOM() LIMIT "@ + dec_digits(n)
}

/// Appends the text of one decoded condition to `out`.
fn push_condition(out: &mut String, c: (u8, u8))
    requires
        c.0 < 10,
        c.1 < 10,
    ensures
        final(out)@ == old(out)@ + condition_text(c),
{
    out.append("trans = ");
    out.append(digit_str(c.0 as usize));
    out.append(" AND plur = ");
    out.append(digit_str(c.1 as usize));
}

/// Every condition pair decoded from a requirement sequence lies inside
/// the class ranges.
proof fn lemma_condition_bounds(vts: Seq<u8>, i: int)
    requires
        0 <= i < seq_conditions(vts).len(),
    ensures
        seq_conditions(vts)[i].0 < 4,
        seq_conditions(vts)[i].1 < 3,
{
    let c = seq_conditions(vts)[i];
    assert(seq_conditions(vts).contains(c));
    crate::bitmask::lemma_seq_conditions_union(vts, c);
    let k = choose|k: int|
        0 <= k < vts.len() && crate::bitmask::decoded_conditions(#[trigger] vts[k]).contains(c);
    crate::bitmask::lemma_decoded_cross_product(vts[k], c);
}

/// Builds the selection query for a verb requirement sequence, exactly
/// as `verb_query` states it.
pub fn build_verb_query(verb_types: &[u8]) -> (q: String)
    ensures
        q@ == verb_query(verb_types@),
{
    let n = verb_types.len();
    let mut conds: Vec<(u8, u8)> = Vec::new();
    let mut np: bool = false;
    assert(verb_types@.take(0) =~= Seq::<u8>::empty());
    for i in 0..n
        invariant
            n == verb_types@.len(),
            conds@ == seq_conditions(verb_types@.take(i as int)),
            np == seq_needs_particle(verb_types@.take(i as int)),
    {
        let (mut decoded, one_np) = decode_verb_requirement(verb_types[i]);
        conds.append(&mut decoded);
        np = np || one_np;
        proof {
            assert(verb_types@.take(i + 1).drop_last() =~= verb_types@.take(i as int));
            assert(verb_types@.take(i + 1).last() == verb_types@[i as int]);
        }
    }
    assert(verb_types@.take(n as int) =~= verb_types@);
    let ghost parts = seq_conditions(verb_types@).map_values(|c: (u8, u8)| condition_text(c));
    let mut joined = String::new();
    let m = conds.len();
    assert(parts.take(0) =~= Seq::<Seq<char>>::empty());
    for i in 0..m
        invariant
            m == conds@.len(),
            conds@ == seq_conditions(verb_types@),
            parts == seq_conditions(verb_types@).map_values(|c: (u8, u8)| condition_text(c)),
            joined@ == joined_conditions(parts.take(i as int)),
    {
        if i > 0 {
            joined.append(" OR ");
        }
        proof {
            lemma_condition_bounds(verb_types@, i as int);
        }
        push_condition(&mut joined, conds[i]);
        proof {
            assert(parts.take(i + 1).drop_last() =~= parts.take(i as int));
            assert(parts.take(i + 1).last() == condition_text(conds@[i as int]));
        }
    }
    assert(parts.take(m as int) =~= parts);
    let mut q = String::from_str("SELECT ainu, jpan, particle FROM verbs WHERE (");
    q.append(joined.as_str());
    q.append(")");
    if np {
        q.append(" AND particle <> ''");
    }
    q.append(" ORDER BY RANDOM() LIMIT ");
    let limit = usize_to_string(n);
    q.append(limit.as_str());
    q
}

/// Builds the selection query for a noun requirement sequence, exactly
/// as `noun_query` states it.
pub fn build_noun_query(noun_types: &[(String, String)]) -> (q: String)
    ensures
        q@ == noun_query(noun_types@.map_values(|c: (String, String)| (c.0@, c.1@))),
{
    let ghost nts = noun_types@.map_values(|c: (String, String)| (c.0@, c.1@));
    let ghost parts = nts.map_values(|c: (Seq<char>, Seq<char>)| noun_condition_text(c));
    let mut joined = String::new();
    let n = noun_types.len();
    assert(parts.take(0) =~= Seq::<Seq<char>>::empty());
    for i in 0..n
        invariant
            n == noun_types@.len(),
            nts == noun_types@.map_values(|c: (String, String)| (c.0@, c.1@)),
            parts == nts.map_values(|c: (Seq<char>, Seq<char>)| noun_condition_text(c)),
            joined@ == joined_conditions(parts.take(i as int)),
    {
        if i > 0 {
            joined.append(" OR ");
        }
        joined.append("cat1 LIKE '");
        joined.append(noun_types[i].0.as_str());
        joined.append("' OR cat2 LIKE '");
        joined.append(noun_types[i].1.as_str());
        joined.append("'");
        proof {
            assert(parts.take(i + 1).drop_last() =~= parts.take(i as int));
            assert(parts.take(i + 1).last() == noun_condition_text(nts[i as int]));
        }
    }
    assert(parts.take(n as int) =~= parts);
    let mut q = String::from_str("SELECT ainu, jpan FROM nouns WHERE ");
    q.append(joined.as_str());
    q.append(" ORDER BY RANDOM() LIMIT ");
    let limit = usize_to_string(n);
    q.append(limit.as_str());
    q
}

/// Builds the count-only noun selection query, exactly as
/// `noun_query_any` states it.
pub fn build_noun_query_any(count: usize) -> (q: String)
    ensures
        q@ == noun_query_any(count as int),
{
    let mut q = String::from_str("SELECT ainu, jpan FROM nouns ORDER BY RANDOM() LIMIT ");
    let limit = usize_to_string(count);
    q.append(limit.as_str());
    q
}

} // verus!
