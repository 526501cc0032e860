//! The fixed catalog of sentence templates.
//!
//! Each template declares the verb requirements and noun requirements of
//! its slots and carries its two sentence forms as lists of pieces: a
//! piece is either literal text or a reference to one verb, noun or
//! particle slot. The Ainu form draws on the Ainu surface forms, the
//! Japanese form on the Japanese surface forms and the particles. The
//! catalog is fixed, and its order defines generation order.

use vstd::prelude::*;
use vstd::string::*;

use crate::bitmask::{VERB0, VERB1, VERB2, V_BOTH, V_PLUR, V_SING};

verus! {

/// One piece of a sentence form: literal text, or the surface form drawn
/// for the verb, noun or particle slot with the given position.
#[derive(Debug, PartialEq, Eq)]
pub enum Piece {
    Lit(String),
    Verb(usize),
    Noun(usize),
    Particle(usize),
}

/// The mathematical value of a piece.
pub enum PieceView {
    Lit(Seq<char>),
    Verb(int),
    Noun(int),
    Particle(int),
}

impl View for Piece {
    type V = PieceView;

    open spec fn view(&self) -> PieceView {
        match self {
            Piece::Lit(s) => PieceView::Lit(s@),
            Piece::Verb(i) => PieceView::Verb(*i as int),
            Piece::Noun(i) => PieceView::Noun(*i as int),
            Piece::Particle(i) => PieceView::Particle(*i as int),
        }
    }
}

/// The views of a list of pieces.
pub open spec fn pieces_view(ps: Seq<Piece>) -> Seq<PieceView> {
    ps.map_values(|p: Piece| p@)
}

/// One sentence template: the requirement byte of each verb slot, the
/// category pattern pair of each noun slot, and the two sentence forms.
pub struct SentenceTemplate {
    pub verb_types: Vec<u8>,
    pub noun_types: Vec<(String, String)>,
    pub ainu_form: Vec<Piece>,
    pub jpan_form: Vec<Piece>,
}

/// The mathematical value of a sentence template.
pub struct TemplateView {
    pub verb_types: Seq<u8>,
    pub noun_types: Seq<(Seq<char>, Seq<char>)>,
    pub ainu_form: Seq<PieceView>,
    pub jpan_form: Seq<PieceView>,
}

impl View for SentenceTemplate {
    type V = TemplateView;

    open spec fn view(&self) -> TemplateView {
        TemplateView {
            verb_types: self.verb_types@,
            noun_types: self.noun_types@.map_values(|c: (String, String)| (c.0@, c.1@)),
            ainu_form: pieces_view(self.ainu_form@),
            jpan_form: pieces_view(self.jpan_form@),
        }
    }
}

/// Whether one piece only refers to slots below the given verb, noun and
/// particle counts.
pub open spec fn piece_ok(p: PieceView, nv: int, nn: int, np: int) -> bool {
    match p {
        PieceView::Lit(_) => true,
        PieceView::Verb(i) => 0 <= i < nv,
        PieceView::Noun(i) => 0 <= i < nn,
        PieceView::Particle(i) => 0 <= i < np,
    }
}

/// Whether every piece of the list only refers to slots below the given
/// counts.
pub open spec fn pieces_ok(ps: Seq<PieceView>, nv: int, nn: int, np: int) -> bool {
    forall|k: int| 0 <= k < ps.len() ==> piece_ok(#[trigger] ps[k], nv, nn, np)
}

/// A well-formed template only refers to the slots it declared: verb and
/// particle references lie below the verb slot count, noun references
/// below the noun slot count, and the Ainu form, which renders without
/// particles, holds no particle reference at all.
pub open spec fn template_wf(t: TemplateView) -> bool {
    &&& pieces_ok(t.ainu_form, t.verb_types.len() as int, t.noun_types.len() as int, 0)
    &&& pieces_ok(
        t.jpan_form,
        t.verb_types.len() as int,
        t.noun_types.len() as int,
        t.verb_types.len() as int,
    )
}

/// The number of templates in the catalog.
pub open spec fn catalog_len() -> int {
    25
}

/// The template at each catalog position.
pub open spec fn catalog_at(i: int) -> TemplateView {
    if i == 0 {
        TemplateView {
            verb_types: seq![(VERB2 | V_BOTH | V_SING) as u8],
            noun_types: seq![("%"@, "%"@)],
            ainu_form: seq![
                PieceView::Noun(0),
                PieceView::Lit(" ku= "@),
                PieceView::Verb(0),
                PieceView::Lit("."@),
            ],
            jpan_form: seq![
                PieceView::Lit("私が"@),
                PieceView::Noun(0),
                PieceView::Particle(0),
                PieceView::Verb(0),
                PieceView::Lit("。"@),
            ],
        }
    } else if i == 1 {
        TemplateView {
            verb_types: seq![(VERB2 | V_BOTH | V_SING) as u8],
            noun_types: seq![("%"@, "%"@), ("%"@, "%"@)],
            ainu_form: seq![
                PieceView::Noun(0),
                PieceView::Lit(" "@),
                PieceView::Noun(1),
                PieceView::Lit(" "@),
                PieceView::Verb(0),
                PieceView::Lit("."@),
            ],
            jpan_form: seq![
                PieceView::Noun(0),
                PieceView::Lit("が"@),
                PieceView::Noun(1),
                PieceView::Particle(0),
                PieceView::Verb(0),
                PieceView::Lit("。"@),
            ],
        }
    } else if i == 2 {
        TemplateView {
            verb_types: seq![(VERB2 | V_BOTH | V_SING | V_PLUR) as u8],
            noun_types: seq![("%"@, "%"@), ("%"@, "%"@)],
            ainu_form: seq![
                PieceView::Noun(0),
                PieceView::Lit(" anak "@),
                PieceView::Noun(1),
                PieceView::Lit(" "@),
                PieceView::Verb(0),
                PieceView::Lit(" ruwe ne."@),
            ],
            jpan_form: seq![
                PieceView::Noun(0),
                PieceView::Lit("は"@),
                PieceView::Noun(1),
                PieceView::Particle(0),
                PieceView::Verb(0),
                PieceView::Lit("んだよ。"@),
            ],
        }
    } else if i == 3 {
        TemplateView {
            verb_types: seq![(VERB2 | V_BOTH | V_SING | V_PLUR) as u8],
            noun_types: seq![("%"@, "%"@), ("%"@, "%"@)],
            ainu_form: seq![
                PieceView::Noun(0),
                PieceView::Lit(" anak "@),
                PieceView::Noun(1),
                PieceView::Lit(" somo "@),
                PieceView::Verb(0),
                PieceView::Lit(" ya?"@),
            ],
            jpan_form: seq![
                PieceView::Noun(0),
                PieceView::Lit("は"@),
                PieceView::Noun(1),
                PieceView::Particle(0),
                PieceView::Verb(0),
                PieceView::Lit("んじゃないの？"@),
            ],
        }
    } else if i == 4 {
        TemplateView {
            verb_types: seq![(VERB1 | V_BOTH | V_SING | V_PLUR) as u8],
            noun_types: seq![("%"@, "%"@)],
            ainu_form: seq![
                PieceView::Noun(0),
                PieceView::Lit(" anak "@),
                PieceView::Verb(0),
                PieceView::Lit(" ya?"@),
            ],
            jpan_form: seq![
                PieceView::Noun(0),
                PieceView::Lit("は"@),
                PieceView::Verb(0),
                PieceView::Lit("の？"@),
            ],
        }
    } else if i == 5 {
        TemplateView {
            verb_types: seq![(VERB1 | V_BOTH | V_SING | V_PLUR) as u8],
            noun_types: seq![("%"@, "%"@)],
            ainu_form: seq![
                PieceView::Noun(0),
                PieceView::Lit(" anak somo "@),
                PieceView::Verb(0),
                PieceView::Lit(" ya?"@),
            ],
            jpan_form: seq![
                PieceView::Noun(0),
                PieceView::Lit("は"@),
                PieceView::Verb(0),
                PieceView::Lit("んじゃないの？"@),
            ],
        }
    } else if i == 6 {
        TemplateView {
            verb_types: Seq::empty(),
            noun_types: seq![("%"@, "%"@), ("%"@, "%"@)],
            ainu_form: seq![
                PieceView::Noun(0),
                PieceView::Lit(" anak "@),
                PieceView::Noun(1),
                PieceView::Lit(" ne ya?"@),
            ],
            jpan_form: seq![
                PieceView::Noun(0),
                PieceView::Lit("は"@),
                PieceView::Noun(1),
                PieceView::Lit("なの？"@),
            ],
        }
    } else if i == 7 {
        TemplateView {
            verb_types: seq![(VERB2 | V_BOTH | V_SING | V_PLUR) as u8],
            noun_types: seq![("%"@, "%"@), ("%"@, "%"@)],
            ainu_form: seq![
                PieceView::Noun(0),
                PieceView::Lit(" anak "@),
                PieceView::Noun(1),
                PieceView::Lit(" "@),
                PieceView::Verb(0),
                PieceView::Lit(" ya?"@),
            ],
            jpan_form: seq![
                PieceView::Noun(0),
                PieceView::Lit("は"@),
                PieceView::Noun(1),
                PieceView::Particle(0),
                PieceView::Verb(0),
                PieceView::Lit("の？"@),
            ],
        }
    } else if i == 8 {
        TemplateView {
            verb_types: Seq::empty(),
            noun_types: seq![("%"@, "%"@)],
            ainu_form: seq![
                PieceView::Lit("toanpe "@),
                PieceView::Noun(0),
                PieceView::Lit(" ne wa."@),
            ],
            jpan_form: seq![
                PieceView::Lit("あれは"@),
                PieceView::Noun(0),
                PieceView::Lit("だよ。"@),
            ],
        }
    } else if i == 9 {
        TemplateView {
            verb_types: seq![(VERB2 | V_BOTH | V_SING | V_PLUR) as u8],
            noun_types: seq![("%"@, "%"@), ("%"@, "%"@)],
            ainu_form: seq![
                PieceView::Noun(0),
                PieceView::Lit(" anak "@),
                PieceView::Noun(1),
                PieceView::Lit(" "@),
                PieceView::Verb(0),
                PieceView::Lit(" ya?"@),
            ],
            jpan_form: seq![
                PieceView::Noun(0),
                PieceView::Lit("は"@),
                PieceView::Noun(1),
                PieceView::Particle(0),
                PieceView::Verb(0),
                PieceView::Lit("の？"@),
            ],
        }
    } else if i == 10 {
        TemplateView {
            verb_types: seq![(VERB1 | V_BOTH | V_SING | V_PLUR) as u8, (VERB2 | V_BOTH | V_SING | V_PLUR) as u8],
            noun_types: seq![("%"@, "%"@), ("%"@, "%"@)],
            ainu_form: seq![
                PieceView::Lit("toanta "@),
                PieceView::Verb(0),
                PieceView::Lit(" "@),
                PieceView::Noun(0),
                PieceView::Lit(" "@),
                PieceView::Noun(1),
                PieceView::Lit(" "@),
                PieceView::Verb(1),
                PieceView::Lit(" ya?"@),
            ],
            jpan_form: seq![
                PieceView::Lit("あそこで"@),
                PieceView::Verb(0),
                PieceView::Noun(0),
                PieceView::Lit("は"@),
                PieceView::Noun(1),
                PieceView::Particle(1),
                PieceView::Verb(1),
                PieceView::Lit("の？"@),
            ],
        }
    } else if i == 11 {
        TemplateView {
            verb_types: Seq::empty(),
            noun_types: seq![("動物"@, "動物"@), ("植物"@, "植物"@)],
            ainu_form: seq![
                PieceView::Noun(0),
                PieceView::Lit(" "@),
                PieceView::Noun(1),
                PieceView::Lit(" e ya?"@),
            ],
            jpan_form: seq![
                PieceView::Noun(0),
                PieceView::Lit("は"@),
                PieceView::Noun(1),
                PieceView::Lit("を食べるの？"@),
            ],
        }
    } else if i == 12 {
        TemplateView {
            verb_types: Seq::empty(),
            noun_types: seq![("動物"@, "動物"@), ("植物"@, "植物"@)],
            ainu_form: seq![
                PieceView::Noun(0),
                PieceView::Lit(" anak "@),
                PieceView::Noun(1),
                PieceView::Lit(" e ya?"@),
            ],
            jpan_form: seq![
                PieceView::Noun(0),
                PieceView::Lit("は"@),
                PieceView::Noun(1),
                PieceView::Lit("を食べるの？"@),
            ],
        }
    } else if i == 13 {
        TemplateView {
            verb_types: Seq::empty(),
            noun_types: seq![("人"@, "人"@), ("植物"@, "植物"@)],
            ainu_form: seq![
                PieceView::Noun(0),
                PieceView::Lit(" anak "@),
                PieceView::Noun(1),
                PieceView::Lit(" e ya?"@),
            ],
            jpan_form: seq![
                PieceView::Noun(0),
                PieceView::Lit("は"@),
                PieceView::Noun(1),
                PieceView::Lit("を食べるの？"@),
            ],
        }
    } else if i == 14 {
        TemplateView {
            verb_types: Seq::empty(),
            noun_types: seq![("人工物"@, "SKIP"@)],
            ainu_form: seq![
                PieceView::Noun(0),
                PieceView::Lit(" ku=kor rusuy"@),
            ],
            jpan_form: seq![
                PieceView::Noun(0),
                PieceView::Lit("が欲しい"@),
            ],
        }
    } else if i == 15 {
        TemplateView {
            verb_types: Seq::empty(),
            noun_types: seq![("人工物"@, "SKIP"@)],
            ainu_form: seq![
                PieceView::Noun(0),
                PieceView::Lit(" ci=kor rusuy"@),
            ],
            jpan_form: seq![
                PieceView::Lit("私たちは"@),
                PieceView::Noun(0),
                PieceView::Lit("が欲しい"@),
            ],
        }
    } else if i == 16 {
        TemplateView {
            verb_types: Seq::empty(),
            noun_types: seq![("人工物"@, "SKIP"@)],
            ainu_form: seq![
                PieceView::Noun(0),
                PieceView::Lit(" a=kor rusuy"@),
            ],
            jpan_form: seq![
                PieceView::Lit("我々は"@),
                PieceView::Noun(0),
                PieceView::Lit("が欲しい"@),
            ],
        }
    } else if i == 17 {
        TemplateView {
            verb_types: Seq::empty(),
            noun_types: seq![("人工物"@, "SKIP"@)],
            ainu_form: seq![
                PieceView::Noun(0),
                PieceView::Lit(" e=kor rusuy ya?"@),
            ],
            jpan_form: seq![
                PieceView::Noun(0),
                PieceView::Lit("が欲しい？"@),
            ],
        }
    } else if i == 18 {
        TemplateView {
            verb_types: Seq::empty(),
            noun_types: seq![("人工物"@, "SKIP"@)],
            ainu_form: seq![
                PieceView::Noun(0),
                PieceView::Lit(" e=kor rusuy ya?"@),
            ],
            jpan_form: seq![
                PieceView::Noun(0),
                PieceView::Lit("が欲しい？"@),
            ],
        }
    } else if i == 19 {
        TemplateView {
            verb_types: Seq::empty(),
            noun_types: seq![("人工物"@, "SKIP"@)],
            ainu_form: seq![
                PieceView::Noun(0),
                PieceView::Lit(" e=kor rusuy ya?"@),
            ],
            jpan_form: seq![
                PieceView::Noun(0),
                PieceView::Lit("が欲しい？"@),
            ],
        }
    } else if i == 20 {
        TemplateView {
            verb_types: Seq::empty(),
            noun_types: seq![("人工物"@, "SKIP"@)],
            ainu_form: seq![
                PieceView::Noun(0),
                PieceView::Lit(" eci=kor rusuy ya?"@),
            ],
            jpan_form: seq![
                PieceView::Lit("あなたたちは"@),
                PieceView::Noun(0),
                PieceView::Lit("が欲しい？"@),
            ],
        }
    } else if i == 21 {
        TemplateView {
            verb_types: Seq::empty(),
            noun_types: seq![("人工物"@, "SKIP"@)],
            ainu_form: seq![
                PieceView::Noun(0),
                PieceView::Lit(" en=kore yan."@),
            ],
            jpan_form: seq![
                PieceView::Noun(0),
                PieceView::Lit("をください。"@),
            ],
        }
    } else if i == 22 {
        TemplateView {
            verb_types: Seq::empty(),
            noun_types: seq![("人工物"@, "SKIP"@)],
            ainu_form: seq![
                PieceView::Noun(0),
                PieceView::Lit(" un=kore"@),
            ],
            jpan_form: seq![
                PieceView::Noun(0),
                PieceView::Lit("を我々にくれた。"@),
            ],
        }
    } else if i == 23 {
        TemplateView {
            verb_types: Seq::empty(),
            noun_types: seq![("人工物"@, "SKIP"@)],
            ainu_form: seq![
                PieceView::Noun(0),
                PieceView::Lit(" e=kore yan."@),
            ],
            jpan_form: seq![
                PieceView::Noun(0),
                PieceView::Lit("をあげて下さい。"@),
            ],
        }
    } else {
        TemplateView {
            verb_types: seq![(VERB0 | V_BOTH | V_PLUR | V_SING) as u8, (VERB1 | V_BOTH | V_SING) as u8],
            noun_types: Seq::empty(),
            ainu_form: seq![
                PieceView::Verb(0),
                PieceView::Lit(" kusu ku= "@),
                PieceView::Verb(1),
            ],
            jpan_form: seq![
                PieceView::Verb(0),
                PieceView::Lit("ので私は"@),
                PieceView::Verb(1),
            ],
        }
    }
}

/// The whole catalog, in generation order.
pub open spec fn catalog() -> Seq<TemplateView> {
    Seq::new(catalog_len() as nat, |i: int| catalog_at(i))
}

/// Every template of the catalog is well formed: its sentence forms only
/// refer to the slots it declared.
pub proof fn lemma_catalog_wf(i: int)
    requires
        0 <= i < catalog_len(),
    ensures
        template_wf(catalog_at(i)),
{
    assert(template_wf(catalog_at(0)));
    assert(template_wf(catalog_at(1)));
    assert(template_wf(catalog_at(2)));
    assert(template_wf(catalog_at(3)));
    assert(template_wf(catalog_at(4)));
    assert(template_wf(catalog_at(5)));
    assert(template_wf(catalog_at(6)));
    assert(template_wf(catalog_at(7)));
    assert(template_wf(catalog_at(8)));
    assert(template_wf(catalog_at(9)));
    assert(template_wf(catalog_at(10)));
    assert(template_wf(catalog_at(11)));
    assert(template_wf(catalog_at(12)));
    assert(template_wf(catalog_at(13)));
    assert(template_wf(catalog_at(14)));
    assert(template_wf(catalog_at(15)));
    assert(template_wf(catalog_at(16)));
    assert(template_wf(catalog_at(17)));
    assert(template_wf(catalog_at(18)));
    assert(template_wf(catalog_at(19)));
    assert(template_wf(catalog_at(20)));
    assert(template_wf(catalog_at(21)));
    assert(template_wf(catalog_at(22)));
    assert(template_wf(catalog_at(23)));
    assert(template_wf(catalog_at(24)));
}

/// A literal piece holding the given text.
fn lit(s: &str) -> (p: Piece)
    ensures
        p@ == PieceView::Lit(s@),
{
    Piece::Lit(String::from_str(s))
}

/// A reference to the verb slot at `i`.
fn verb(i: usize) -> (p: Piece)
    ensures
        p@ == PieceView::Verb(i as int),
{
    Piece::Verb(i)
}

/// A reference to the noun slot at `i`.
fn noun(i: usize) -> (p: Piece)
    ensures
        p@ == PieceView::Noun(i as int),
{
    Piece::Noun(i)
}

/// A reference to the particle of the verb slot at `i`.
fn particle(i: usize) -> (p: Piece)
    ensures
        p@ == PieceView::Particle(i as int),
{
    Piece::Particle(i)
}

/// A noun category pattern pair.
fn cats(a: &str, b: &str) -> (r: (String, String))
    ensures
        r.0@ == a@,
        r.1@ == b@,
{
    (String::from_str(a), String::from_str(b))
}

/// Builds the catalog of sentence templates, exactly as `catalog` states
/// it, in generation order.
pub fn get_templates() -> (ts: Vec<SentenceTemplate>)
    ensures
        ts@.len() == catalog_len(),
        forall|i: int| 0 <= i < ts@.len() ==> (#[trigger] ts@[i])@ == catalog_at(i),
{
    let mut ts: Vec<SentenceTemplate> = Vec::new();
    ts.push(
        SentenceTemplate {
            verb_types: vec![VERB2 | V_BOTH | V_SING],
            noun_types: vec![cats("%", "%")],
            ainu_form: vec![noun(0), lit(" ku= "), verb(0), lit(".")],
            jpan_form: vec![lit("私が"), noun(0), particle(0), verb(0), lit("。")],
        },
    );
    assert(ts@[0]@ =~= catalog_at(0)) by {
        assert(ts@[0]@.verb_types =~= catalog_at(0).verb_types);
        assert(ts@[0]@.noun_types =~= catalog_at(0).noun_types);
        assert(ts@[0]@.ainu_form =~= catalog_at(0).ainu_form);
        assert(ts@[0]@.jpan_form =~= catalog_at(0).jpan_form);
    }
    ts.push(
        SentenceTemplate {
            verb_types: vec![VERB2 | V_BOTH | V_SING],
            noun_types: vec![cats("%", "%"), cats("%", "%")],
            ainu_form: vec![noun(0), lit(" "), noun(1), lit(" "), verb(0), lit(".")],
            jpan_form: vec![noun(0), lit("が"), noun(1), particle(0), verb(0), lit("。")],
        },
    );
    assert(ts@[1]@ =~= catalog_at(1)) by {
        assert(ts@[1]@.verb_types =~= catalog_at(1).verb_types);
        assert(ts@[1]@.noun_types =~= catalog_at(1).noun_types);
        assert(ts@[1]@.ainu_form =~= catalog_at(1).ainu_form);
        assert(ts@[1]@.jpan_form =~= catalog_at(1).jpan_form);
    }
    ts.push(
        SentenceTemplate {
            verb_types: vec![VERB2 | V_BOTH | V_SING | V_PLUR],
            noun_types: vec![cats("%", "%"), cats("%", "%")],
            ainu_form: vec![noun(0), lit(" anak "), noun(1), lit(" "), verb(0), lit(" ruwe ne.")],
            jpan_form: vec![noun(0), lit("は"), noun(1), particle(0), verb(0), lit("んだよ。")],
        },
    );
    assert(ts@[2]@ =~= catalog_at(2)) by {
        assert(ts@[2]@.verb_types =~= catalog_at(2).verb_types);
        assert(ts@[2]@.noun_types =~= catalog_at(2).noun_types);
        assert(ts@[2]@.ainu_form =~= catalog_at(2).ainu_form);
        assert(ts@[2]@.jpan_form =~= catalog_at(2).jpan_form);
    }
    ts.push(
        SentenceTemplate {
            verb_types: vec![VERB2 | V_BOTH | V_SING | V_PLUR],
            noun_types: vec![cats("%", "%"), cats("%", "%")],
            ainu_form: vec![noun(0), lit(" anak "), noun(1), lit(" somo "), verb(0), lit(" ya?")],
            jpan_form: vec![noun(0), lit("は"), noun(1), particle(0), verb(0), lit("んじゃないの？")],
        },
    );
    assert(ts@[3]@ =~= catalog_at(3)) by {
        assert(ts@[3]@.verb_types =~= catalog_at(3).verb_types);
        assert(ts@[3]@.noun_types =~= catalog_at(3).noun_types);
        assert(ts@[3]@.ainu_form =~= catalog_at(3).ainu_form);
        assert(ts@[3]@.jpan_form =~= catalog_at(3).jpan_form);
    }
    ts.push(
        SentenceTemplate {
            verb_types: vec![VERB1 | V_BOTH | V_SING | V_PLUR],
            noun_types: vec![cats("%", "%")],
            ainu_form: vec![noun(0), lit(" anak "), verb(0), lit(" ya?")],
            jpan_form: vec![noun(0), lit("は"), verb(0), lit("の？")],
        },
    );
    assert(ts@[4]@ =~= catalog_at(4)) by {
        assert(ts@[4]@.verb_types =~= catalog_at(4).verb_types);
        assert(ts@[4]@.noun_types =~= catalog_at(4).noun_types);
        assert(ts@[4]@.ainu_form =~= catalog_at(4).ainu_form);
        assert(ts@[4]@.jpan_form =~= catalog_at(4).jpan_form);
    }
    ts.push(
        SentenceTemplate {
            verb_types: vec![VERB1 | V_BOTH | V_SING | V_PLUR],
            noun_types: vec![cats("%", "%")],
            ainu_form: vec![noun(0), lit(" anak somo "), verb(0), lit(" ya?")],
            jpan_form: vec![noun(0), lit("は"), verb(0), lit("んじゃないの？")],
        },
    );
    assert(ts@[5]@ =~= catalog_at(5)) by {
        assert(ts@[5]@.verb_types =~= catalog_at(5).verb_types);
        assert(ts@[5]@.noun_types =~= catalog_at(5).noun_types);
        assert(ts@[5]@.ainu_form =~= catalog_at(5).ainu_form);
        assert(ts@[5]@.jpan_form =~= catalog_at(5).jpan_form);
    }
    ts.push(
        SentenceTemplate {
            verb_types: Vec::new(),
            noun_types: vec![cats("%", "%"), cats("%", "%")],
            ainu_form: vec![noun(0), lit(" anak "), noun(1), lit(" ne ya?")],
            jpan_form: vec![noun(0), lit("は"), noun(1), lit("なの？")],
        },
    );
    assert(ts@[6]@ =~= catalog_at(6)) by {
        assert(ts@[6]@.verb_types =~= catalog_at(6).verb_types);
        assert(ts@[6]@.noun_types =~= catalog_at(6).noun_types);
        assert(ts@[6]@.ainu_form =~= catalog_at(6).ainu_form);
        assert(ts@[6]@.jpan_form =~= catalog_at(6).jpan_form);
    }
    ts.push(
        SentenceTemplate {
            verb_types: vec![VERB2 | V_BOTH | V_SING | V_PLUR],
            noun_types: vec![cats("%", "%"), cats("%", "%")],
            ainu_form: vec![noun(0), lit(" anak "), noun(1), lit(" "), verb(0), lit(" ya?")],
            jpan_form: vec![noun(0), lit("は"), noun(1), particle(0), verb(0), lit("の？")],
        },
    );
    assert(ts@[7]@ =~= catalog_at(7)) by {
        assert(ts@[7]@.verb_types =~= catalog_at(7).verb_types);
        assert(ts@[7]@.noun_types =~= catalog_at(7).noun_types);
        assert(ts@[7]@.ainu_form =~= catalog_at(7).ainu_form);
        assert(ts@[7]@.jpan_form =~= catalog_at(7).jpan_form);
    }
    ts.push(
        SentenceTemplate {
            verb_types: Vec::new(),
            noun_types: vec![cats("%", "%")],
            ainu_form: vec![lit("toanpe "), noun(0), lit(" ne wa.")],
            jpan_form: vec![lit("あれは"), noun(0), lit("だよ。")],
        },
    );
    assert(ts@[8]@ =~= catalog_at(8)) by {
        assert(ts@[8]@.verb_types =~= catalog_at(8).verb_types);
        assert(ts@[8]@.noun_types =~= catalog_at(8).noun_types);
        assert(ts@[8]@.ainu_form =~= catalog_at(8).ainu_form);
        assert(ts@[8]@.jpan_form =~= catalog_at(8).jpan_form);
    }
    ts.push(
        SentenceTemplate {
            verb_types: vec![VERB2 | V_BOTH | V_SING | V_PLUR],
            noun_types: vec![cats("%", "%"), cats("%", "%")],
            ainu_form: vec![noun(0), lit(" anak "), noun(1), lit(" "), verb(0), lit(" ya?")],
            jpan_form: vec![noun(0), lit("は"), noun(1), particle(0), verb(0), lit("の？")],
        },
    );
    assert(ts@[9]@ =~= catalog_at(9)) by {
        assert(ts@[9]@.verb_types =~= catalog_at(9).verb_types);
        assert(ts@[9]@.noun_types =~= catalog_at(9).noun_types);
        assert(ts@[9]@.ainu_form =~= catalog_at(9).ainu_form);
        assert(ts@[9]@.jpan_form =~= catalog_at(9).jpan_form);
    }
    ts.push(
        SentenceTemplate {
            verb_types: vec![VERB1 | V_BOTH | V_SING | V_PLUR, VERB2 | V_BOTH | V_SING | V_PLUR],
            noun_types: vec![cats("%", "%"), cats("%", "%")],
            ainu_form: vec![lit("toanta "), verb(0), lit(" "), noun(0), lit(" "), noun(1), lit(" "), verb(1), lit(" ya?")],
            jpan_form: vec![lit("あそこで"), verb(0), noun(0), lit("は"), noun(1), particle(1), verb(1), lit("の？")],
        },
    );
    assert(ts@[10]@ =~= catalog_at(10)) by {
        assert(ts@[10]@.verb_types =~= catalog_at(10).verb_types);
        assert(ts@[10]@.noun_types =~= catalog_at(10).noun_types);
        assert(ts@[10]@.ainu_form =~= catalog_at(10).ainu_form);
        assert(ts@[10]@.jpan_form =~= catalog_at(10).jpan_form);
    }
    ts.push(
        SentenceTemplate {
            verb_types: Vec::new(),
            noun_types: vec![cats("動物", "動物"), cats("植物", "植物")],
            ainu_form: vec![noun(0), lit(" "), noun(1), lit(" e ya?")],
            jpan_form: vec![noun(0), lit("は"), noun(1), lit("を食べるの？")],
        },
    );
    assert(ts@[11]@ =~= catalog_at(11)) by {
        assert(ts@[11]@.verb_types =~= catalog_at(11).verb_types);
        assert(ts@[11]@.noun_types =~= catalog_at(11).noun_types);
        assert(ts@[11]@.ainu_form =~= catalog_at(11).ainu_form);
        assert(ts@[11]@.jpan_form =~= catalog_at(11).jpan_form);
    }
    ts.push(
        SentenceTemplate {
            verb_types: Vec::new(),
            noun_types: vec![cats("動物", "動物"), cats("植物", "植物")],
            ainu_form: vec![noun(0), lit(" anak "), noun(1), lit(" e ya?")],
            jpan_form: vec![noun(0), lit("は"), noun(1), lit("を食べるの？")],
        },
    );
    assert(ts@[12]@ =~= catalog_at(12)) by {
        assert(ts@[12]@.verb_types =~= catalog_at(12).verb_types);
        assert(ts@[12]@.noun_types =~= catalog_at(12).noun_types);
        assert(ts@[12]@.ainu_form =~= catalog_at(12).ainu_form);
        assert(ts@[12]@.jpan_form =~= catalog_at(12).jpan_form);
    }
    ts.push(
        SentenceTemplate {
            verb_types: Vec::new(),
            noun_types: vec![cats("人", "人"), cats("植物", "植物")],
            ainu_form: vec![noun(0), lit(" anak "), noun(1), lit(" e ya?")],
            jpan_form: vec![noun(0), lit("は"), noun(1), lit("を食べるの？")],
        },
    );
    assert(ts@[13]@ =~= catalog_at(13)) by {
        assert(ts@[13]@.verb_types =~= catalog_at(13).verb_types);
        assert(ts@[13]@.noun_types =~= catalog_at(13).noun_types);
        assert(ts@[13]@.ainu_form =~= catalog_at(13).ainu_form);
        assert(ts@[13]@.jpan_form =~= catalog_at(13).jpan_form);
    }
    ts.push(
        SentenceTemplate {
            verb_types: Vec::new(),
            noun_types: vec![cats("人工物", "SKIP")],
            ainu_form: vec![noun(0), lit(" ku=kor rusuy")],
            jpan_form: vec![noun(0), lit("が欲しい")],
        },
    );
    assert(ts@[14]@ =~= catalog_at(14)) by {
        assert(ts@[14]@.verb_types =~= catalog_at(14).verb_types);
        assert(ts@[14]@.noun_types =~= catalog_at(14).noun_types);
        assert(ts@[14]@.ainu_form =~= catalog_at(14).ainu_form);
        assert(ts@[14]@.jpan_form =~= catalog_at(14).jpan_form);
    }
    ts.push(
        SentenceTemplate {
            verb_types: Vec::new(),
            noun_types: vec![cats("人工物", "SKIP")],
            ainu_form: vec![noun(0), lit(" ci=kor rusuy")],
            jpan_form: vec![lit("私たちは"), noun(0), lit("が欲しい")],
        },
    );
    assert(ts@[15]@ =~= catalog_at(15)) by {
        assert(ts@[15]@.verb_types =~= catalog_at(15).verb_types);
        assert(ts@[15]@.noun_types =~= catalog_at(15).noun_types);
        assert(ts@[15]@.ainu_form =~= catalog_at(15).ainu_form);
        assert(ts@[15]@.jpan_form =~= catalog_at(15).jpan_form);
    }
    ts.push(
        SentenceTemplate {
            verb_types: Vec::new(),
            noun_types: vec![cats("人工物", "SKIP")],
            ainu_form: vec![noun(0), lit(" a=kor rusuy")],
            jpan_form: vec![lit("我々は"), noun(0), lit("が欲しい")],
        },
    );
    assert(ts@[16]@ =~= catalog_at(16)) by {
        assert(ts@[16]@.verb_types =~= catalog_at(16).verb_types);
        assert(ts@[16]@.noun_types =~= catalog_at(16).noun_types);
        assert(ts@[16]@.ainu_form =~= catalog_at(16).ainu_form);
        assert(ts@[16]@.jpan_form =~= catalog_at(16).jpan_form);
    }
    ts.push(
        SentenceTemplate {
            verb_types: Vec::new(),
            noun_types: vec![cats("人工物", "SKIP")],
            ainu_form: vec![noun(0), lit(" e=kor rusuy ya?")],
            jpan_form: vec![noun(0), lit("が欲しい？")],
        },
    );
    assert(ts@[17]@ =~= catalog_at(17)) by {
        assert(ts@[17]@.verb_types =~= catalog_at(17).verb_types);
        assert(ts@[17]@.noun_types =~= catalog_at(17).noun_types);
        assert(ts@[17]@.ainu_form =~= catalog_at(17).ainu_form);
        assert(ts@[17]@.jpan_form =~= catalog_at(17).jpan_form);
    }
    ts.push(
        SentenceTemplate {
            verb_types: Vec::new(),
            noun_types: vec![cats("人工物", "SKIP")],
            ainu_form: vec![noun(0), lit(" e=kor rusuy ya?")],
            jpan_form: vec![noun(0), lit("が欲しい？")],
        },
    );
    assert(ts@[18]@ =~= catalog_at(18)) by {
        assert(ts@[18]@.verb_types =~= catalog_at(18).verb_types);
        assert(ts@[18]@.noun_types =~= catalog_at(18).noun_types);
        assert(ts@[18]@.ainu_form =~= catalog_at(18).ainu_form);
        assert(ts@[18]@.jpan_form =~= catalog_at(18).jpan_form);
    }
    ts.push(
        SentenceTemplate {
            verb_types: Vec::new(),
            noun_types: vec![cats("人工物", "SKIP")],
            ainu_form: vec![noun(0), lit(" e=kor rusuy ya?")],
            jpan_form: vec![noun(0), lit("が欲しい？")],
        },
    );
    assert(ts@[19]@ =~= catalog_at(19)) by {
        assert(ts@[19]@.verb_types =~= catalog_at(19).verb_types);
        assert(ts@[19]@.noun_types =~= catalog_at(19).noun_types);
        assert(ts@[19]@.ainu_form =~= catalog_at(19).ainu_form);
        assert(ts@[19]@.jpan_form =~= catalog_at(19).jpan_form);
    }
    ts.push(
        SentenceTemplate {
            verb_types: Vec::new(),
            noun_types: vec![cats("人工物", "SKIP")],
            ainu_form: vec![noun(0), lit(" eci=kor rusuy ya?")],
            jpan_form: vec![lit("あなたたちは"), noun(0), lit("が欲しい？")],
        },
    );
    assert(ts@[20]@ =~= catalog_at(20)) by {
        assert(ts@[20]@.verb_types =~= catalog_at(20).verb_types);
        assert(ts@[20]@.noun_types =~= catalog_at(20).noun_types);
        assert(ts@[20]@.ainu_form =~= catalog_at(20).ainu_form);
        assert(ts@[20]@.jpan_form =~= catalog_at(20).jpan_form);
    }
    ts.push(
        SentenceTemplate {
            verb_types: Vec::new(),
            noun_types: vec![cats("人工物", "SKIP")],
            ainu_form: vec![noun(0), lit(" en=kore yan.")],
            jpan_form: vec![noun(0), lit("をください。")],
        },
    );
    assert(ts@[21]@ =~= catalog_at(21)) by {
        assert(ts@[21]@.verb_types =~= catalog_at(21).verb_types);
        assert(ts@[21]@.noun_types =~= catalog_at(21).noun_types);
        assert(ts@[21]@.ainu_form =~= catalog_at(21).ainu_form);
        assert(ts@[21]@.jpan_form =~= catalog_at(21).jpan_form);
    }
    ts.push(
        SentenceTemplate {
            verb_types: Vec::new(),
            noun_types: vec![cats("人工物", "SKIP")],
            ainu_form: vec![noun(0), lit(" un=kore")],
            jpan_form: vec![noun(0), lit("を我々にくれた。")],
        },
    );
    assert(ts@[22]@ =~= catalog_at(22)) by {
        assert(ts@[22]@.verb_types =~= catalog_at(22).verb_types);
        assert(ts@[22]@.noun_types =~= catalog_at(22).noun_types);
        assert(ts@[22]@.ainu_form =~= catalog_at(22).ainu_form);
        assert(ts@[22]@.jpan_form =~= catalog_at(22).jpan_form);
    }
    ts.push(
        SentenceTemplate {
            verb_types: Vec::new(),
            noun_types: vec![cats("人工物", "SKIP")],
            ainu_form: vec![noun(0), lit(" e=kore yan.")],
            jpan_form: vec![noun(0), lit("をあげて下さい。")],
        },
    );
    assert(ts@[23]@ =~= catalog_at(23)) by {
        assert(ts@[23]@.verb_types =~= catalog_at(23).verb_types);
        assert(ts@[23]@.noun_types =~= catalog_at(23).noun_types);
        assert(ts@[23]@.ainu_form =~= catalog_at(23).ainu_form);
        assert(ts@[23]@.jpan_form =~= catalog_at(23).jpan_form);
    }
    ts.push(
        SentenceTemplate {
            verb_types: vec![VERB0 | V_BOTH | V_PLUR | V_SING, VERB1 | V_BOTH | V_SING],
            noun_types: Vec::new(),
            ainu_form: vec![verb(0), lit(" kusu ku= "), verb(1)],
            jpan_form: vec![verb(0), lit("ので私は"), verb(1)],
        },
    );
    assert(ts@[24]@ =~= catalog_at(24)) by {
        assert(ts@[24]@.verb_types =~= catalog_at(24).verb_types);
        assert(ts@[24]@.noun_types =~= catalog_at(24).noun_types);
        assert(ts@[24]@.ainu_form =~= catalog_at(24).ainu_form);
        assert(ts@[24]@.jpan_form =~= catalog_at(24).jpan_form);
    }
    ts
}

} // verus!
