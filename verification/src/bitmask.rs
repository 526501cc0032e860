//! Decoding of verb-requirement bitmasks.
//!
//! A verb requirement packs into one byte the set of acceptable
//! (transitivity, plurality) combinations for one verb slot. The high
//! nibble holds the transitivity classes (bit `i` set means transitivity
//! class `i` is acceptable, `i` in `0..4`), the low nibble the plurality
//! classes (bit 0: both singular and plural accepted, bit 1: singular
//! only, bit 2: plural only). A requirement that admits a transitive or
//! ditransitive reading additionally demands that the matched row carry a
//! non-empty particle.

use vstd::prelude::*;

verus! {

/// Avalent (impersonal) verbs acceptable.
pub const VERB0: u8 = 0x10;

/// Intransitive verbs acceptable.
pub const VERB1: u8 = 0x20;

/// Transitive verbs acceptable.
pub const VERB2: u8 = 0x40;

/// Ditransitive verbs acceptable.
pub const VERB3: u8 = 0x80;

/// Rows accepting both singular and plural agreement acceptable.
pub const V_BOTH: u8 = 0x01;

/// Singular-only rows acceptable.
pub const V_SING: u8 = 0x02;

/// Plural-only rows acceptable.
pub const V_PLUR: u8 = 0x04;

/// Whether transitivity class `i` is acceptable under requirement `vt`.
pub open spec fn trans_bit(vt: u8, i: u8) -> bool {
    (vt >> 4u8) & (1u8 << i) != 0u8
}

/// Whether plurality class `j` is acceptable under requirement `vt`.
pub open spec fn plur_bit(vt: u8, j: u8) -> bool {
    vt & (1u8 << j) != 0u8
}

/// Whether requirement `vt` demands a non-empty particle: true exactly
/// when some acceptable transitivity class is transitive or ditransitive.
pub open spec fn needs_particle(vt: u8) -> bool {
    trans_bit(vt, 2) || trans_bit(vt, 3)
}

/// The plurality conditions emitted for transitivity class `t`, walking
/// plurality bit positions from `j` up.
pub open spec fn plur_conds(vt: u8, t: u8, j: int) -> Seq<(u8, u8)>
    decreases 3 - j,
{
    if j < 0 || j >= 3 {
        Seq::empty()
    } else {
        (if plur_bit(vt, j as u8) {
            seq![(t, j as u8)]
        } else {
            Seq::empty()
        }) + plur_conds(vt, t, j + 1)
    }
}

/// The conditions emitted walking transitivity bit positions from `i` up,
/// and inside each, all plurality bit positions.
pub open spec fn trans_conds(vt: u8, i: int) -> Seq<(u8, u8)>
    decreases 4 - i,
{
    if i < 0 || i >= 4 {
        Seq::empty()
    } else {
        (if trans_bit(vt, i as u8) {
            plur_conds(vt, i as u8, 0)
        } else {
            Seq::empty()
        }) + trans_conds(vt, i + 1)
    }
}

/// The full ordered condition list decoded from requirement `vt`: one
/// (transitivity, plurality) pair per set bit pair, transitivity-major.
pub open spec fn decoded_conditions(vt: u8) -> Seq<(u8, u8)> {
    trans_conds(vt, 0)
}

/// Decodes one verb requirement into its ordered condition list and its
/// particle demand.
pub fn decode_verb_requirement(vt: u8) -> (r: (Vec<(u8, u8)>, bool))
    ensures
        r.0@ == decoded_conditions(vt),
        r.1 == needs_particle(vt),
{
    let mut conds: Vec<(u8, u8)> = Vec::new();
    let mut np: bool = false;
    assert(decoded_conditions(vt) == conds@ + trans_conds(vt, 0));
    for ii in 0u8..4u8
        invariant
            conds@ + trans_conds(vt, ii as int) == decoded_conditions(vt),
            np == ((ii > 2 && trans_bit(vt, 2)) || (ii > 3 && trans_bit(vt, 3))),
    {
        if (vt >> 4u8) & (1u8 << ii) != 0u8 {
            if ii > 1 {
                np = true;
            }
            let ghost before = conds@;
            for jj in 0u8..3u8
                invariant
                    before + plur_conds(vt, ii as u8, 0) == conds@ + plur_conds(vt, ii as u8, jj as int),
                    trans_bit(vt, ii as u8),
            {
                if vt & (1u8 << jj) != 0u8 {
                    conds.push((ii, jj));
                }
                assert(plur_conds(vt, ii, jj as int) == (if plur_bit(vt, jj) {
                    seq![(ii, jj)]
                } else {
                    Seq::<(u8, u8)>::empty()
                }) + plur_conds(vt, ii, jj as int + 1));
                assert(before + plur_conds(vt, ii, 0) == conds@ + plur_conds(vt, ii, jj as int + 1));
            }
            assert(conds@ == before + plur_conds(vt, ii, 0));
        }
        assert(trans_conds(vt, ii as int) == (if trans_bit(vt, ii) {
            plur_conds(vt, ii, 0)
        } else {
            Seq::<(u8, u8)>::empty()
        }) + trans_conds(vt, ii as int + 1));
        assert(conds@ + trans_conds(vt, ii as int + 1) == decoded_conditions(vt));
    }
    (conds, np)
}

/// The plurality walk emits exactly the set plurality bits for class `t`.
proof fn lemma_plur_conds_contains(vt: u8, t: u8, j: int, c: (u8, u8))
    requires
        0 <= j <= 3,
    ensures
        plur_conds(vt, t, j).contains(c) <==> (c.0 == t && j <= c.1 < 3 && plur_bit(vt, c.1)),
    decreases 3 - j,
{
    if j < 3 {
        lemma_plur_conds_contains(vt, t, j + 1, c);
        if c.0 == t && j <= c.1 < 3 && plur_bit(vt, c.1) {
            if c.1 == j {
                assert(plur_conds(vt, t, j)[0] == c);
                assert(plur_conds(vt, t, j).contains(c));
            } else {
                let k = choose|k: int|
                    0 <= k < plur_conds(vt, t, j + 1).len() && #[trigger] plur_conds(vt, t, j + 1)[k]
                        == c;
                let off: int = if plur_bit(vt, j as u8) {
                    1
                } else {
                    0
                };
                assert(plur_conds(vt, t, j)[k + off] == c);
            }
        }
        if plur_conds(vt, t, j).contains(c) {
            let k = choose|k: int|
                0 <= k < plur_conds(vt, t, j).len() && #[trigger] plur_conds(vt, t, j)[k] == c;
            let off: int = if plur_bit(vt, j as u8) {
                1
            } else {
                0
            };
            if k >= off {
                assert(plur_conds(vt, t, j + 1)[k - off] == c);
                assert(plur_conds(vt, t, j + 1).contains(c));
            }
        }
    }
}

/// The transitivity walk emits exactly the cross product of the set bits
/// at positions `i` and above with the set plurality bits.
proof fn lemma_trans_conds_contains(vt: u8, i: int, c: (u8, u8))
    requires
        0 <= i <= 4,
    ensures
        trans_conds(vt, i).contains(c) <==> (i <= c.0 < 4 && trans_bit(vt, c.0) && c.1 < 3
            && plur_bit(vt, c.1)),
    decreases 4 - i,
{
    if i < 4 {
        lemma_trans_conds_contains(vt, i + 1, c);
        lemma_plur_conds_contains(vt, i as u8, 0, c);
        let head: Seq<(u8, u8)> = if trans_bit(vt, i as u8) {
            plur_conds(vt, i as u8, 0)
        } else {
            Seq::empty()
        };
        assert(trans_conds(vt, i) == head + trans_conds(vt, i + 1));
        if i <= c.0 < 4 && trans_bit(vt, c.0) && c.1 < 3 && plur_bit(vt, c.1) {
            if c.0 == i {
                let k = choose|k: int| 0 <= k < head.len() && #[trigger] head[k] == c;
                assert(trans_conds(vt, i)[k] == c);
            } else {
                let k = choose|k: int|
                    0 <= k < trans_conds(vt, i + 1).len() && #[trigger] trans_conds(vt, i + 1)[k]
                        == c;
                assert(trans_conds(vt, i)[head.len() + k] == c);
            }
        }
        if trans_conds(vt, i).contains(c) {
            let k = choose|k: int|
                0 <= k < trans_conds(vt, i).len() && #[trigger] trans_conds(vt, i)[k] == c;
            if k < head.len() {
                assert(head[k] == c);
            } else {
                assert(trans_conds(vt, i + 1)[k - head.len()] == c);
                assert(trans_conds(vt, i + 1).contains(c));
            }
        }
    }
}

/// The decoded condition list is exactly the cross product of the set
/// transitivity bits with the set plurality bits: a pair is listed iff
/// both of its bits are set in the requirement.
pub proof fn lemma_decoded_cross_product(vt: u8, c: (u8, u8))
    ensures
        decoded_conditions(vt).contains(c) <==> (c.0 < 4 && trans_bit(vt, c.0) && c.1 < 3
            && plur_bit(vt, c.1)),
{
    lemma_trans_conds_contains(vt, 0, c);
}

/// Decoding is a pure function of the requirement byte: two decodings of
/// the same requirement agree exactly, both in the condition list and in
/// the particle demand.
pub proof fn lemma_decode_deterministic(
    vt: u8,
    c1: Seq<(u8, u8)>,
    p1: bool,
    c2: Seq<(u8, u8)>,
    p2: bool,
)
    requires
        c1 == decoded_conditions(vt),
        p1 == needs_particle(vt),
        c2 == decoded_conditions(vt),
        p2 == needs_particle(vt),
    ensures
        c1 == c2,
        p1 == p2,
{
}

/// The union of the decoded conditions over a whole requirement
/// sequence, in requirement order: the selector cannot tell which slot a
/// drawn row satisfies, so one filter serves the whole sequence.
pub open spec fn seq_conditions(vts: Seq<u8>) -> Seq<(u8, u8)>
    decreases vts.len(),
{
    if vts.len() == 0 {
        Seq::empty()
    } else {
        seq_conditions(vts.drop_last()) + decoded_conditions(vts.last())
    }
}

/// Whether any requirement of the sequence demands a non-empty particle.
pub open spec fn seq_needs_particle(vts: Seq<u8>) -> bool
    decreases vts.len(),
{
    if vts.len() == 0 {
        false
    } else {
        seq_needs_particle(vts.drop_last()) || needs_particle(vts.last())
    }
}

/// The conditions of a requirement sequence are the union of each
/// requirement's conditions: a pair is listed iff some requirement of
/// the sequence lists it.
pub proof fn lemma_seq_conditions_union(vts: Seq<u8>, c: (u8, u8))
    ensures
        seq_conditions(vts).contains(c) <==> exists|k: int|
            0 <= k < vts.len() && decoded_conditions(#[trigger] vts[k]).contains(c),
    decreases vts.len(),
{
    if vts.len() > 0 {
        lemma_seq_conditions_union(vts.drop_last(), c);
        let head = seq_conditions(vts.drop_last());
        let tail = decoded_conditions(vts.last());
        if seq_conditions(vts).contains(c) {
            let k = choose|k: int|
                0 <= k < seq_conditions(vts).len() && #[trigger] seq_conditions(vts)[k] == c;
            if k < head.len() {
                assert(head[k] == c);
                assert(head.contains(c));
                let j = choose|j: int|
                    0 <= j < vts.drop_last().len() && decoded_conditions(
                        #[trigger] vts.drop_last()[j],
                    ).contains(c);
                assert(vts[j] == vts.drop_last()[j]);
            } else {
                assert(tail[k - head.len()] == c);
                assert(tail.contains(c));
                assert(vts[vts.len() - 1] == vts.last());
            }
        }
        if exists|k: int| 0 <= k < vts.len() && decoded_conditions(#[trigger] vts[k]).contains(c) {
            let k = choose|k: int|
                0 <= k < vts.len() && decoded_conditions(#[trigger] vts[k]).contains(c);
            if k < vts.len() - 1 {
                assert(vts.drop_last()[k] == vts[k]);
                assert(head.contains(c));
                let j = choose|j: int| 0 <= j < head.len() && #[trigger] head[j] == c;
                assert(seq_conditions(vts)[j] == c);
            } else {
                let j = choose|j: int| 0 <= j < tail.len() && #[trigger] tail[j] == c;
                assert(seq_conditions(vts)[head.len() + j] == c);
            }
        }
    }
}

/// A particle demand somewhere in the sequence is a demand of some one
/// requirement, and the other way round.
pub proof fn lemma_seq_needs_particle_union(vts: Seq<u8>)
    ensures
        seq_needs_particle(vts) <==> exists|k: int|
            0 <= k < vts.len() && needs_particle(#[trigger] vts[k]),
    decreases vts.len(),
{
    if vts.len() > 0 {
        lemma_seq_needs_particle_union(vts.drop_last());
        if seq_needs_particle(vts.drop_last()) {
            let k = choose|k: int|
                0 <= k < vts.drop_last().len() && needs_particle(#[trigger] vts.drop_last()[k]);
            assert(needs_particle(vts[k]));
        }
        if needs_particle(vts.last()) {
            assert(needs_particle(vts[vts.len() - 1]));
        }
        if exists|k: int| 0 <= k < vts.len() && needs_particle(#[trigger] vts[k]) {
            let k = choose|k: int| 0 <= k < vts.len() && needs_particle(#[trigger] vts[k]);
            if k < vts.len() - 1 {
                assert(vts.drop_last()[k] == vts[k]);
            }
        }
    }
}

/// Whether a verb row with the given transitivity class, plurality
/// class and particle satisfies the selection filter of a requirement
/// sequence: its class pair is among the union of the decoded
/// conditions, and its particle is non-empty where any requirement of
/// the sequence demands one. The selection query built for the sequence
/// expresses exactly this filter.
pub open spec fn verb_row_matches(vts: Seq<u8>, trans: u8, plur: u8, particle: Seq<char>) -> bool {
    seq_conditions(vts).contains((trans, plur)) && (seq_needs_particle(vts) ==> particle.len() > 0)
}

/// Every row that satisfies the selection filter of a sequence with a
/// particle demand carries a non-empty particle.
pub proof fn lemma_matching_row_has_particle(vts: Seq<u8>, trans: u8, plur: u8, particle: Seq<char>)
    requires
        seq_needs_particle(vts),
        verb_row_matches(vts, trans, plur, particle),
    ensures
        particle.len() > 0,
{
}

} // verus!
