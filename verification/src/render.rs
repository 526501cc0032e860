//! Rendering of sampled lexicon rows into a template's sentence forms.
//!
//! Rendering is a pure function of its inputs: each piece of a sentence
//! form is replaced by its literal text or by the surface form drawn for
//! the slot it refers to, and the results are concatenated in order. A
//! piece that refers to a slot beyond what the selectors returned makes
//! the rendering fail with an out-of-range outcome instead of silently
//! reusing or fabricating a value; the caller treats that as a
//! template/data mismatch.

use vstd::prelude::*;
use vstd::string::*;

use crate::templates::{
    piece_ok, pieces_ok, pieces_view, template_wf, Piece, PieceView, SentenceTemplate,
    TemplateView,
};

verus! {

/// The text one piece contributes, given the drawn surface forms.
pub open spec fn piece_text(
    p: PieceView,
    verbs: Seq<Seq<char>>,
    nouns: Seq<Seq<char>>,
    particles: Seq<Seq<char>>,
) -> Seq<char> {
    match p {
        PieceView::Lit(s) => s,
        PieceView::Verb(i) => verbs[i],
        PieceView::Noun(i) => nouns[i],
        PieceView::Particle(i) => particles[i],
    }
}

/// The concatenation, in order, of the text of every piece.
pub open spec fn rendered(
    pieces: Seq<PieceView>,
    verbs: Seq<Seq<char>>,
    nouns: Seq<Seq<char>>,
    particles: Seq<Seq<char>>,
) -> Seq<char>
    decreases pieces.len(),
{
    if pieces.len() == 0 {
        Seq::empty()
    } else {
        rendered(pieces.drop_last(), verbs, nouns, particles) + piece_text(
            pieces.last(),
            verbs,
            nouns,
            particles,
        )
    }
}

/// Renders one sentence form from the drawn surface forms: the rendered
/// text when every piece refers to a slot the inputs cover, and nothing
/// when some piece reaches out of range.
pub fn render_pieces(
    pieces: &Vec<Piece>,
    verbs: &Vec<String>,
    nouns: &Vec<String>,
    particles: &Vec<String>,
) -> (r: Option<String>)
    ensures
        match r {
            Some(s) => pieces_ok(
                pieces_view(pieces@),
                verbs@.len() as int,
                nouns@.len() as int,
                particles@.len() as int,
            ) && s@ == rendered(
                pieces_view(pieces@),
                verbs.deep_view(),
                nouns.deep_view(),
                particles.deep_view(),
            ),
            None => !pieces_ok(
                pieces_view(pieces@),
                verbs@.len() as int,
                nouns@.len() as int,
                particles@.len() as int,
            ),
        },
{
    let ghost pv = pieces_view(pieces@);
    let mut out = String::new();
    let n = pieces.len();
    assert(pv.take(0) =~= Seq::<PieceView>::empty());
    for k in 0..n
        invariant
            n == pieces@.len(),
            pv == pieces_view(pieces@),
            pieces_ok(pv.take(k as int), verbs@.len() as int, nouns@.len() as int, particles@.len() as int),
            out@ == rendered(pv.take(k as int), verbs.deep_view(), nouns.deep_view(), particles.deep_view()),
    {
        assert(pv[k as int] == pieces@[k as int]@);
        match &pieces[k] {
            Piece::Lit(s) => {
                out.append(s.as_str());
            },
            Piece::Verb(i) => {
                if *i >= verbs.len() {
                    assert(!piece_ok(pv[k as int], verbs@.len() as int, nouns@.len() as int, particles@.len() as int));
                    return None;
                }
                out.append(verbs[*i].as_str());
                assert(verbs.deep_view()[*i as int] == verbs@[*i as int]@);
            },
            Piece::Noun(i) => {
                if *i >= nouns.len() {
                    assert(!piece_ok(pv[k as int], verbs@.len() as int, nouns@.len() as int, particles@.len() as int));
                    return None;
                }
                out.append(nouns[*i].as_str());
                assert(nouns.deep_view()[*i as int] == nouns@[*i as int]@);
            },
            Piece::Particle(i) => {
                if *i >= particles.len() {
                    assert(!piece_ok(pv[k as int], verbs@.len() as int, nouns@.len() as int, particles@.len() as int));
                    return None;
                }
                out.append(particles[*i].as_str());
                assert(particles.deep_view()[*i as int] == particles@[*i as int]@);
            },
        }
        proof {
            assert(pv.take(k + 1).drop_last() =~= pv.take(k as int));
            assert(pv.take(k + 1).last() == pv[k as int]);
        }
    }
    assert(pv.take(n as int) =~= pv);
    Some(out)
}

/// Renders one template's two aligned sentence forms from the drawn
/// rows: the Ainu form from the Ainu surface forms, the Japanese form
/// from the Japanese surface forms and the particles. The Ainu form has
/// no particles available to it. Both succeed, or the whole rendering
/// reports the out-of-range piece by returning nothing.
pub fn render_template(
    t: &SentenceTemplate,
    verbs_ainu: &Vec<String>,
    verbs_jpan: &Vec<String>,
    particles: &Vec<String>,
    nouns_ainu: &Vec<String>,
    nouns_jpan: &Vec<String>,
) -> (r: Option<(String, String)>)
    ensures
        match r {
            Some(pair) => pair.0@ == rendered(
                t@.ainu_form,
                verbs_ainu.deep_view(),
                nouns_ainu.deep_view(),
                Seq::empty(),
            ) && pair.1@ == rendered(
                t@.jpan_form,
                verbs_jpan.deep_view(),
                nouns_jpan.deep_view(),
                particles.deep_view(),
            ) && pieces_ok(t@.ainu_form, verbs_ainu@.len() as int, nouns_ainu@.len() as int, 0)
                && pieces_ok(
                t@.jpan_form,
                verbs_jpan@.len() as int,
                nouns_jpan@.len() as int,
                particles@.len() as int,
            ),
            None => !pieces_ok(t@.ainu_form, verbs_ainu@.len() as int, nouns_ainu@.len() as int, 0)
                || !pieces_ok(
                t@.jpan_form,
                verbs_jpan@.len() as int,
                nouns_jpan@.len() as int,
                particles@.len() as int,
            ),
        },
{
    let no_particles: Vec<String> = Vec::new();
    assert(no_particles.deep_view() =~= Seq::<Seq<char>>::empty());
    let ainu = match render_pieces(&t.ainu_form, verbs_ainu, nouns_ainu, &no_particles) {
        Some(s) => s,
        None => {
            return None;
        },
    };
    let jpan = match render_pieces(&t.jpan_form, verbs_jpan, nouns_jpan, particles) {
        Some(s) => s,
        None => {
            return None;
        },
    };
    Some((ainu, jpan))
}

/// A well-formed template renders successfully as soon as the selectors
/// filled every declared slot: with one verb form, one particle and one
/// noun form per declared requirement, every piece of both sentence
/// forms is in range.
pub proof fn lemma_full_slots_render(t: TemplateView, nv: int, nn: int, np: int)
    requires
        template_wf(t),
        nv == t.verb_types.len(),
        nn == t.noun_types.len(),
        np == t.verb_types.len(),
    ensures
        pieces_ok(t.ainu_form, nv, nn, 0),
        pieces_ok(t.jpan_form, nv, nn, np),
{
}

} // verus!
