//! Category pattern matching for noun requirements.
//!
//! A noun requirement carries two category patterns; a noun row matches
//! when its first category matches the first pattern or its second
//! category matches the second pattern. A pattern is matched literally,
//! except that the wildcard `%` stands for any (possibly empty) sequence
//! of characters; the bare pattern `%` therefore matches every category,
//! and an unknown category simply matches nothing. This is the library's
//! model of the requirement-matching semantics — bare wildcards and
//! exact literals, the only pattern forms the catalog uses.

use vstd::prelude::*;
use vstd::string::*;

verus! {

/// Whether `text` matches `pat`, where `%` in the pattern stands for any
/// sequence of characters and every other character stands for itself.
pub open spec fn wildcard_matches(pat: Seq<char>, text: Seq<char>) -> bool
    decreases pat.len(), text.len(),
{
    if pat.len() == 0 {
        text.len() == 0
    } else if pat[0] == '%' {
        wildcard_matches(pat.skip(1), text) || (text.len() > 0 && wildcard_matches(
            pat,
            text.skip(1),
        ))
    } else {
        text.len() > 0 && pat[0] == text[0] && wildcard_matches(pat.skip(1), text.skip(1))
    }
}

/// Whether a noun row with categories `cat1` and `cat2` satisfies a noun
/// requirement with patterns `pat1` and `pat2`.
pub open spec fn noun_matches(
    pat1: Seq<char>,
    pat2: Seq<char>,
    cat1: Seq<char>,
    cat2: Seq<char>,
) -> bool {
    wildcard_matches(pat1, cat1) || wildcard_matches(pat2, cat2)
}

/// Matches `text` against `pat` from positions `pi` and `ti` on, given
/// the two character lengths.
fn wildcard_match_from(pat: &str, text: &str, pi: usize, ti: usize, pn: usize, tn: usize) -> (r:
    bool)
    requires
        pn == pat@.len(),
        tn == text@.len(),
        pi <= pn,
        ti <= tn,
    ensures
        r == wildcard_matches(pat@.skip(pi as int), text@.skip(ti as int)),
    decreases pn - pi, tn - ti,
{
    let ghost p = pat@.skip(pi as int);
    let ghost t = text@.skip(ti as int);
    if pi == pn {
        assert(p.len() == 0);
        ti == tn
    } else {
        let c = pat.get_char(pi);
        assert(p[0] == c);
        if c == '%' {
            assert(p.skip(1) =~= pat@.skip(pi as int + 1));
            if wildcard_match_from(pat, text, pi + 1, ti, pn, tn) {
                true
            } else if ti < tn {
                assert(t.skip(1) =~= text@.skip(ti as int + 1));
                wildcard_match_from(pat, text, pi, ti + 1, pn, tn)
            } else {
                false
            }
        } else {
            if ti < tn {
                let tc = text.get_char(ti);
                assert(t[0] == tc);
                assert(p.skip(1) =~= pat@.skip(pi as int + 1));
                assert(t.skip(1) =~= text@.skip(ti as int + 1));
                c == tc && wildcard_match_from(pat, text, pi + 1, ti + 1, pn, tn)
            } else {
                false
            }
        }
    }
}

/// Whether `text` matches the wildcard pattern `pat`, exactly as
/// `wildcard_matches` states it.
pub fn wildcard_match(pat: &str, text: &str) -> (r: bool)
    ensures
        r == wildcard_matches(pat@, text@),
{
    let pn = pat.unicode_len();
    let tn = text.unicode_len();
    assert(pat@.skip(0) =~= pat@);
    assert(text@.skip(0) =~= text@);
    wildcard_match_from(pat, text, 0, 0, pn, tn)
}

/// Whether a noun row satisfies a noun requirement, exactly as
/// `noun_matches` states it.
pub fn noun_row_matches(pat1: &str, pat2: &str, cat1: &str, cat2: &str) -> (r: bool)
    ensures
        r == noun_matches(pat1@, pat2@, cat1@, cat2@),
{
    wildcard_match(pat1, cat1) || wildcard_match(pat2, cat2)
}

/// The bare wildcard pattern matches every text.
pub proof fn lemma_wildcard_matches_all(text: Seq<char>)
    ensures
        wildcard_matches("%"@, text),
    decreases text.len(),
{
    reveal_strlit("%");
    assert("%"@.len() == 1);
    assert("%"@[0] == '%');
    assert("%"@.skip(1) =~= Seq::<char>::empty());
    if text.len() == 0 {
        assert(wildcard_matches("%"@.skip(1), text));
    } else {
        lemma_wildcard_matches_all(text.skip(1));
    }
}

/// A noun requirement whose two patterns are both the bare wildcard
/// matches every noun row, whatever its categories hold.
pub proof fn lemma_any_noun_matches(cat1: Seq<char>, cat2: Seq<char>)
    ensures
        noun_matches("%"@, "%"@, cat1, cat2),
{
    lemma_wildcard_matches_all(cat1);
}

} // verus!
