//! The generation loop over the template catalog.
//!
//! One batch walks the given templates in catalog order, and the batch
//! repeats the requested number of times; each template contributes one
//! output line numbered by a zero-based running index: the index, the
//! rendered Ainu sentence and the rendered Japanese sentence, joined by
//! tabs. Every error is fatal to the whole run: a rejected query aborts
//! it, and so does a template whose slots the store could not fill (a
//! template/data mismatch); no partial batch is handed back.

use vstd::prelude::*;
use vstd::string::*;

use crate::query::{dec_digits, noun_query, usize_to_string, verb_query};
use crate::render::{render_template, rendered};
use crate::selector::{get_nouns, get_verbs, QueryError};
use crate::templates::{pieces_ok, SentenceTemplate, TemplateView};

verus! {

/// Why a run aborted: the store rejected a selection query, or a
/// template's slots could not all be filled from the store, so its
/// rendering reached out of range.
#[derive(Debug)]
pub enum GenerateError {
    Query(QueryError),
    Mismatch,
}

/// Whether `line` is an output line for position `idx` and template
/// `tv`: the zero-based index, a rendering of the template's Ainu form
/// and a rendering of its Japanese form, joined by tabs.
pub open spec fn line_shape(line: Seq<char>, idx: int, tv: TemplateView) -> bool {
    exists|
        va: Seq<Seq<char>>,
        na: Seq<Seq<char>>,
        vj: Seq<Seq<char>>,
        nj: Seq<Seq<char>>,
        pp: Seq<Seq<char>>,
    |
        line == dec_digits(idx) + "\t"@ + #[trigger] rendered(tv.ainu_form, va, na, Seq::empty())
            + "\t"@ + #[trigger] rendered(tv.jpan_form, vj, nj, pp)
}

/// Runs `repeat` batches over the templates, in order, and collects one
/// tab-joined output line per template per batch, numbered consecutively
/// from zero. The store decides what each line holds; its shape, its
/// index and which template it renders are promised. Any query failure
/// or unfillable template aborts the whole run.
pub fn generate_batch(
    conn: &rusqlite::Connection,
    templates: &Vec<SentenceTemplate>,
    repeat: usize,
) -> (r: Result<Vec<String>, GenerateError>)
    requires
        repeat * templates@.len() <= usize::MAX,
    ensures
        r matches Ok(lines) ==> lines@.len() == repeat * templates@.len(),
        r matches Ok(lines) ==> forall|i: int|
            0 <= i < lines@.len() ==> line_shape(
                (#[trigger] lines@[i])@,
                i,
                templates@[i % (templates@.len() as int)]@,
            ),
        repeat == 0 || templates@.len() == 0 ==> (r matches Ok(lines) && lines@.len() == 0),
        r matches Err(GenerateError::Query(e)) ==> exists|k: int|
            0 <= k < templates@.len() && (e.query@ == verb_query(
                (#[trigger] templates@[k])@.verb_types,
            ) || e.query@ == noun_query(templates@[k]@.noun_types)),
        r matches Err(GenerateError::Mismatch) ==> exists|k: int, nv: int, nn: int|
            0 <= k < templates@.len() && 0 <= nv <= templates@[k]@.verb_types.len() && 0 <= nn
                <= templates@[k]@.noun_types.len() && (!(#[trigger] pieces_ok(
                templates@[k]@.ainu_form,
                nv,
                nn,
                0,
            )) || !pieces_ok(templates@[k]@.jpan_form, nv, nn, nv)),
{
    let mut lines: Vec<String> = Vec::new();
    let mut index: usize = 0;
    let tcount = templates.len();
    proof {
        assert(0 * tcount == 0) by (nonlinear_arith);
    }
    for b in 0..repeat
        invariant
            tcount == templates@.len(),
            repeat * tcount <= usize::MAX,
            index == b * tcount,
            lines@.len() == index,
            forall|i: int|
                0 <= i < lines@.len() ==> line_shape(
                    (#[trigger] lines@[i])@,
                    i,
                    templates@[i % (tcount as int)]@,
                ),
    {
        proof {
            lemma_batch_bound(b as int, repeat as int, tcount as int);
        }
        for t in 0..tcount
            invariant
                tcount == templates@.len(),
                repeat * tcount <= usize::MAX,
                b < repeat,
                (b + 1) * tcount <= repeat * tcount,
                index == b * tcount + t,
                lines@.len() == index,
                forall|i: int|
                    0 <= i < lines@.len() ==> line_shape(
                        (#[trigger] lines@[i])@,
                        i,
                        templates@[i % (tcount as int)]@,
                    ),
        {
            let template = &templates[t];
            let verbs = match get_verbs(conn, template.verb_types.as_slice()) {
                Ok(v) => v,
                Err(e) => {
                    assert(e.query@ == verb_query(templates@[t as int]@.verb_types));
                    return Err(GenerateError::Query(e));
                },
            };
            let nouns = match get_nouns(conn, template.noun_types.as_slice()) {
                Ok(v) => v,
                Err(e) => {
                    assert(e.query@ == noun_query(templates@[t as int]@.noun_types));
                    return Err(GenerateError::Query(e));
                },
            };
            let (ainu, jpan) = match render_template(
                template,
                &verbs.0,
                &verbs.1,
                &verbs.2,
                &nouns.0,
                &nouns.1,
            ) {
                Some(pair) => pair,
                None => {
                    proof {
                        let ghost nv = verbs.0@.len() as int;
                        let ghost nn = nouns.0@.len() as int;
                        assert(!pieces_ok(templates@[t as int]@.ainu_form, nv, nn, 0) || !pieces_ok(
                            templates@[t as int]@.jpan_form,
                            nv,
                            nn,
                            nv,
                        ));
                    }
                    return Err(GenerateError::Mismatch);
                },
            };
            let mut line = usize_to_string(index);
            line.append("\t");
            line.append(ainu.as_str());
            line.append("\t");
            line.append(jpan.as_str());
            proof {
                lemma_index_mod(b as int, t as int, tcount as int);
                assert(line@ == dec_digits(index as int) + "\t"@ + rendered(
                    template@.ainu_form,
                    verbs.0.deep_view(),
                    nouns.0.deep_view(),
                    Seq::empty(),
                ) + "\t"@ + rendered(
                    template@.jpan_form,
                    verbs.1.deep_view(),
                    nouns.1.deep_view(),
                    verbs.2.deep_view(),
                ));
                assert(line_shape(line@, index as int, templates@[index as int % (tcount as int)]@));
            }
            lines.push(line);
            proof {
                assert((b * tcount + t) + 1 <= (b + 1) * tcount <= usize::MAX) by (nonlinear_arith)
                    requires
                        t < tcount,
                        b < repeat,
                        (b + 1) * tcount <= repeat * tcount,
                        repeat * tcount <= usize::MAX,
                        b >= 0,
                        t >= 0,
                        tcount >= 0,
                ;
            }
            index = index + 1;
        }
        proof {
            assert(b * tcount + tcount == (b + 1) * tcount) by (nonlinear_arith);
        }
    }
    proof {
        assert(repeat * tcount == lines@.len());
    }
    Ok(lines)
}

/// Walking one more batch keeps the running index within the total.
proof fn lemma_batch_bound(b: int, repeat: int, tcount: int)
    by (nonlinear_arith)
    requires
        0 <= b < repeat,
        tcount >= 0,
        repeat * tcount <= usize::MAX,
    ensures
        (b + 1) * tcount <= repeat * tcount,
        b * tcount + tcount <= usize::MAX,
{
}

/// The running index `b * tcount + t` lies at template position `t` of
/// its batch.
proof fn lemma_index_mod(b: int, t: int, tcount: int)
    by (nonlinear_arith)
    requires
        b >= 0,
        0 <= t < tcount,
    ensures
        (b * tcount + t) % tcount == t,
{
}

} // verus!
