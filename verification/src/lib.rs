//! Generation of paired bilingual example sentences from a lexicon.
//!
//! A fixed catalog of sentence templates declares, per template, which
//! grammatical classes of verbs and nouns it needs. Verb requirements are
//! encoded as bitmasks over transitivity and plurality classes; noun
//! requirements are pairs of category patterns. The selectors translate
//! those requirements into selection queries against a relational lexicon
//! store, draw matching rows in pseudo-random order, and the renderer
//! substitutes the drawn surface forms into the template's two parallel
//! sentence forms.

pub mod bitmask;
pub mod driver;
pub mod patterns;
pub mod query;
pub mod render;
pub mod selector;
pub mod templates;
