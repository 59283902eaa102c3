//! Bit patterns read as sets: the model over which the flag sets of this
//! crate are specified.
//!
//! A flag set is one byte. Bit `i` of the byte says whether element `i` is in
//! the set, so union is `|`, intersection is `&`, symmetric difference is `^`
//! and difference is `& !`. A flags type names some of the eight bits; those
//! are its known bits, and truncation clears every other bit.
//!
//! The laws below are what the contracts of the flag sets can be combined by.

use vstd::prelude::*;

verus! {

/// No bit of `bits` lies outside `known`.
pub open spec fn within(bits: u8, known: u8) -> bool {
    bits & !known == 0
}

/// Every bit of `part` is also set in `whole`.
pub open spec fn subset(part: u8, whole: u8) -> bool {
    whole & part == part
}

/// `a` and `b` have at least one bit in common.
pub open spec fn overlap(a: u8, b: u8) -> bool {
    a & b != 0
}

/// Truncation leaves only known bits, changes nothing when applied twice, and
/// keeps exactly those patterns that had no unknown bit to begin with, among
/// them the empty set and the set of all known bits.
pub proof fn lemma_truncate(bits: u8, known: u8)
    by (bit_vector)
    ensures
        within(bits & known, known),
        (bits & known) & known == bits & known,
        within(bits, known) <==> bits & known == bits,
        within(0, known),
        within(known, known),
{
}

/// Union commutes, is idempotent, has the empty set as its unit and contains
/// both of its operands. It changes nothing exactly if the second operand was
/// already contained in the first.
pub proof fn lemma_union(a: u8, b: u8)
    by (bit_vector)
    ensures
        a | b == b | a,
        a | a == a,
        a | 0 == a,
        subset(a, a | b),
        subset(b, a | b),
        subset(b, a) <==> a | b == a,
{
}

/// Intersection commutes, is idempotent, is empty with the empty set and is
/// contained in both of its operands. Two sets overlap exactly if neither
/// loses all of its bits to the difference with the other.
pub proof fn lemma_intersection(a: u8, b: u8)
    by (bit_vector)
    ensures
        a & b == b & a,
        a & a == a,
        a & 0 == 0,
        subset(a & b, a),
        subset(a & b, b),
        overlap(a, b) <==> overlap(b, a),
        !overlap(a, b) <==> a & !b == a,
{
}

/// Union and intersection are associative, absorb and distribute over each
/// other, and are the least upper and the greatest lower bound under
/// containment.
pub proof fn lemma_lattice(a: u8, b: u8, c: u8)
    by (bit_vector)
    ensures
        (a | b) | c == a | (b | c),
        (a & b) & c == a & (b & c),
        a | (a & b) == a,
        a & (a | b) == a,
        a & (b | c) == (a & b) | (a & c),
        a | (b & c) == (a | b) & (a | c),
        subset(a, c) && subset(b, c) ==> subset(a | b, c),
        subset(c, a) && subset(c, b) ==> subset(c, a & b),
{
}

/// The difference `a & !b` is the part of `a` that `b` does not touch:
/// it is contained in `a`, shares nothing with `b`, and together with the
/// intersection it gives `a` back.
pub proof fn lemma_difference(a: u8, b: u8)
    by (bit_vector)
    ensures
        subset(a & !b, a),
        !overlap(a & !b, b),
        (a & !b) | (a & b) == a,
        (a | b) & !b == a & !b,
        (a & !b) & !b == a & !b,
{
}

/// The symmetric difference holds the bits set in exactly one operand, and
/// toggling the same bits twice restores the pattern.
pub proof fn lemma_symmetric_difference(a: u8, b: u8)
    by (bit_vector)
    ensures
        a ^ b == b ^ a,
        a ^ b == (a | b) & !(a & b),
        (a ^ b) ^ b == a,
        a ^ a == 0,
        a ^ 0 == a,
{
}

/// The complement within `known` has only known bits, shares nothing with the
/// pattern it was taken of, fills `known` together with it, and taken twice
/// it gives the truncation of the pattern.
pub proof fn lemma_complement(a: u8, known: u8)
    by (bit_vector)
    ensures
        within(!a & known, known),
        !overlap(!a & known, a),
        (a & known) | (!a & known) == known,
        !(!a & known) & known == a & known,
{
}

/// Within `known`, the complement of a union is the intersection of the
/// complements, and the complement of an intersection is the union of the
/// complements.
pub proof fn lemma_de_morgan(a: u8, b: u8, known: u8)
    by (bit_vector)
    ensures
        !(a | b) & known == (!a & known) & (!b & known),
        !(a & b) & known == (!a & known) | (!b & known),
{
}

/// Containment is a partial order on bit patterns, with the empty set below
/// every pattern.
pub proof fn lemma_subset_order(a: u8, b: u8, c: u8)
    by (bit_vector)
    ensures
        subset(a, a),
        subset(a, b) && subset(b, a) ==> a == b,
        subset(a, b) && subset(b, c) ==> subset(a, c),
        subset(0, a),
{
}

/// The set operations do not lead out of the known bits.
pub proof fn lemma_within_closed(a: u8, b: u8, known: u8)
    by (bit_vector)
    requires
        within(a, known),
        within(b, known),
    ensures
        within(a | b, known),
        within(a & b, known),
        within(a ^ b, known),
        within(a & !b, known),
{
}

/// A pattern contains all known bits exactly if adding them changes nothing;
/// one that has no other bit besides is the set of all known bits.
pub proof fn lemma_contains_all(a: u8, known: u8)
    by (bit_vector)
    ensures
        subset(known, a) <==> known | a == a,
        within(a, known) && subset(known, a) ==> a == known,
{
}

} // verus!
