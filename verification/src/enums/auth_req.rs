//! What a device asks of a pairing.

use crate::enums::bitset::{
    lemma_complement, lemma_contains_all, lemma_difference, lemma_intersection,
    lemma_subset_order, lemma_truncate, lemma_union, overlap, subset, within,
};
use vstd::prelude::*;

verus! {

/// The requirements that a device places on a pairing, as a set.
///
/// The view of a value is its bit pattern. A value may carry bits that name
/// no requirement. Only [`AuthReq::complement`] and
/// [`AuthReq::from_bits_truncate`] clear such bits of their own accord, and
/// [`AuthReq::from_bits`] refuses them.
#[derive(Debug, Clone, Copy, PartialEq, Eq, Structural)]
pub struct AuthReq {
    bits: u8,
}

impl View for AuthReq {
    type V = u8;

    closed spec fn view(&self) -> u8 {
        self.bits
    }
}

/// The union of the requirements, as the executable code holds it.
const KNOWN: u8 = 0b111;

impl AuthReq {
    /// The bits that name a requirement: the union of the requirements.
    pub open spec fn known() -> u8 {
        0b001u8 | 0b010u8 | 0b100u8
    }

    /// Whether every bit of `other` is set in `self`.
    pub open spec fn spec_contains(&self, other: Self) -> bool {
        subset(other@, self@)
    }

    /// Whether `self` and `other` have a bit in common.
    pub open spec fn spec_intersects(&self, other: Self) -> bool {
        overlap(self@, other@)
    }

    /// Whether no bit is set.
    pub open spec fn spec_is_empty(&self) -> bool {
        self@ == 0
    }

    /// Whether all of the requirements are in `self`.
    pub open spec fn spec_is_all(&self) -> bool {
        subset(Self::known(), self@)
    }

    /// Two values with the same bit pattern are the same value.
    pub proof fn lemma_equal_by_bits(a: Self, b: Self)
        requires
            a@ == b@,
        ensures
            a == b,
    {
    }

    /// The executable code holds the same known bits as the specification.
    proof fn lemma_known()
        ensures
            Self::known() == KNOWN,
    {
        assert(0b001u8 | 0b010u8 | 0b100u8 == 0b111u8) by (bit_vector);
    }

    /// allow bonding
    #[allow(non_snake_case)]
    pub fn Bond() -> (flag: Self)
        ensures
            flag@ == 0b001,
    {
        AuthReq { bits: 0b001 }
    }

    /// man in the middle protection
    #[allow(non_snake_case)]
    pub fn Mitm() -> (flag: Self)
        ensures
            flag@ == 0b010,
    {
        AuthReq { bits: 0b010 }
    }

    /// secure connection pairing
    #[allow(non_snake_case)]
    pub fn Sc() -> (flag: Self)
        ensures
            flag@ == 0b100,
    {
        AuthReq { bits: 0b100 }
    }

    /// The set without any bit.
    pub fn empty() -> (flags: Self)
        ensures
            flags@ == 0,
            flags.spec_is_empty(),
    {
        AuthReq { bits: 0 }
    }

    /// The set of all of the requirements, and of nothing else.
    pub fn all() -> (flags: Self)
        ensures
            flags@ == Self::known(),
            flags.spec_is_all(),
            within(flags@, Self::known()),
    {
        proof {
            Self::lemma_known();
            lemma_truncate(KNOWN, KNOWN);
            lemma_subset_order(KNOWN, KNOWN, KNOWN);
        }
        AuthReq { bits: KNOWN }
    }

    /// The bit pattern of the set.
    pub fn bits(&self) -> (bits: u8)
        ensures
            bits == self@,
    {
        self.bits
    }

    /// The set with the bit pattern `bits`, unless `bits` has a bit that names
    /// no requirement.
    pub fn from_bits(bits: u8) -> (flags: Option<Self>)
        ensures
            flags is Some <==> within(bits, Self::known()),
            flags matches Some(f) ==> f@ == bits,
    {
        proof {
            Self::lemma_known();
            lemma_truncate(bits, KNOWN);
        }
        let truncated: u8 = bits & KNOWN;
        if truncated == bits {
            Some(AuthReq { bits })
        } else {
            None
        }
    }

    /// The set with the bit pattern `bits`, without the bits that name no
    /// requirement.
    pub fn from_bits_truncate(bits: u8) -> (flags: Self)
        ensures
            flags@ == bits & Self::known(),
            within(flags@, Self::known()),
    {
        proof {
            Self::lemma_known();
            lemma_truncate(bits, KNOWN);
        }
        AuthReq { bits: bits & KNOWN }
    }

    /// The set with the bit pattern `bits`, whatever bits it has.
    pub fn from_bits_retain(bits: u8) -> (flags: Self)
        ensures
            flags@ == bits,
    {
        AuthReq { bits }
    }

    /// Whether no bit is set.
    #[verifier::when_used_as_spec(spec_is_empty)]
    pub fn is_empty(&self) -> (empty: bool)
        ensures
            empty == self.spec_is_empty(),
    {
        self.bits == 0
    }

    /// Whether all of the requirements are in the set.
    #[verifier::when_used_as_spec(spec_is_all)]
    pub fn is_all(&self) -> (all: bool)
        ensures
            all == self.spec_is_all(),
    {
        proof {
            Self::lemma_known();
            lemma_contains_all(self.bits, KNOWN);
        }
        KNOWN | self.bits == self.bits
    }

    /// Whether the two sets have a bit in common.
    #[verifier::when_used_as_spec(spec_intersects)]
    pub fn intersects(&self, other: Self) -> (shared: bool)
        ensures
            shared == self.spec_intersects(other),
    {
        self.bits & other.bits != 0
    }

    /// Whether every bit of `other` is set in `self`.
    #[verifier::when_used_as_spec(spec_contains)]
    pub fn contains(&self, other: Self) -> (inside: bool)
        ensures
            inside == self.spec_contains(other),
    {
        self.bits & other.bits == other.bits
    }

    /// Adds the bits of `other`. The set then contains `other` and what it
    /// held before.
    pub fn insert(&mut self, other: Self)
        ensures
            final(self)@ == old(self)@ | other@,
            final(self).spec_contains(other),
            final(self).spec_contains(*old(self)),
    {
        proof {
            lemma_union(self.bits, other.bits);
        }
        self.bits = self.bits | other.bits;
    }

    /// Clears the bits of `other`. The set then shares nothing with `other`
    /// and holds nothing that it did not hold before.
    pub fn remove(&mut self, other: Self)
        ensures
            final(self)@ == old(self)@ & !other@,
            !final(self).spec_intersects(other),
            old(self).spec_contains(*final(self)),
    {
        proof {
            lemma_difference(self.bits, other.bits);
        }
        self.bits = self.bits & !other.bits;
    }

    /// Flips the bits of `other`.
    pub fn toggle(&mut self, other: Self)
        ensures
            final(self)@ == old(self)@ ^ other@,
    {
        self.bits = self.bits ^ other.bits;
    }

    /// Adds the bits of `other` if `value` is true, and clears them if not.
    pub fn set(&mut self, other: Self, value: bool)
        ensures
            value ==> final(self)@ == old(self)@ | other@,
            !value ==> final(self)@ == old(self)@ & !other@,
            value ==> final(self).spec_contains(other),
            !value ==> !final(self).spec_intersects(other),
    {
        if value {
            self.insert(other);
        } else {
            self.remove(other);
        }
    }

    /// The bits set in both: the largest set that both contain.
    pub fn intersection(self, other: Self) -> (flags: Self)
        ensures
            flags@ == self@ & other@,
            self.spec_contains(flags),
            other.spec_contains(flags),
    {
        proof {
            lemma_intersection(self.bits, other.bits);
        }
        AuthReq { bits: self.bits & other.bits }
    }

    /// The bits set in either: the smallest set that contains both.
    pub fn union(self, other: Self) -> (flags: Self)
        ensures
            flags@ == self@ | other@,
            flags.spec_contains(self),
            flags.spec_contains(other),
    {
        proof {
            lemma_union(self.bits, other.bits);
        }
        AuthReq { bits: self.bits | other.bits }
    }

    /// The bits set in `self` and not in `other`.
    pub fn difference(self, other: Self) -> (flags: Self)
        ensures
            flags@ == self@ & !other@,
            self.spec_contains(flags),
            !flags.spec_intersects(other),
    {
        proof {
            lemma_difference(self.bits, other.bits);
        }
        AuthReq { bits: self.bits & !other.bits }
    }

    /// The bits set in exactly one of the two.
    pub fn symmetric_difference(self, other: Self) -> (flags: Self)
        ensures
            flags@ == self@ ^ other@,
    {
        AuthReq { bits: self.bits ^ other.bits }
    }

    /// The requirements that are not in `self`. Bits that name no requirement are
    /// dropped.
    pub fn complement(self) -> (flags: Self)
        ensures
            flags@ == !self@ & Self::known(),
            within(flags@, Self::known()),
            !flags.spec_intersects(self),
    {
        proof {
            lemma_complement(self.bits, Self::known());
        }
        Self::from_bits_truncate(!self.bits)
    }
}

impl core::ops::BitOr for AuthReq {
    type Output = AuthReq;

    /// The bits set in either: [`AuthReq::union`].
    fn bitor(self, other: AuthReq) -> (flags: AuthReq)
        ensures
            flags@ == self@ | other@,
    {
        self.union(other)
    }
}

impl vstd::std_specs::ops::BitOrSpecImpl for AuthReq {
    open spec fn obeys_bitor_spec() -> bool {
        true
    }

    open spec fn bitor_req(self, other: AuthReq) -> bool {
        true
    }

    closed spec fn bitor_spec(self, other: AuthReq) -> AuthReq {
        AuthReq { bits: self.bits | other.bits }
    }
}

impl core::ops::BitAnd for AuthReq {
    type Output = AuthReq;

    /// The bits set in both: [`AuthReq::intersection`].
    fn bitand(self, other: AuthReq) -> (flags: AuthReq)
        ensures
            flags@ == self@ & other@,
    {
        self.intersection(other)
    }
}

impl vstd::std_specs::ops::BitAndSpecImpl for AuthReq {
    open spec fn obeys_bitand_spec() -> bool {
        true
    }

    open spec fn bitand_req(self, other: AuthReq) -> bool {
        true
    }

    closed spec fn bitand_spec(self, other: AuthReq) -> AuthReq {
        AuthReq { bits: self.bits & other.bits }
    }
}

impl core::ops::BitXor for AuthReq {
    type Output = AuthReq;

    /// The bits set in exactly one of the two:
    /// [`AuthReq::symmetric_difference`].
    fn bitxor(self, other: AuthReq) -> (flags: AuthReq)
        ensures
            flags@ == self@ ^ other@,
    {
        self.symmetric_difference(other)
    }
}

impl vstd::std_specs::ops::BitXorSpecImpl for AuthReq {
    open spec fn obeys_bitxor_spec() -> bool {
        true
    }

    open spec fn bitxor_req(self, other: AuthReq) -> bool {
        true
    }

    closed spec fn bitxor_spec(self, other: AuthReq) -> AuthReq {
        AuthReq { bits: self.bits ^ other.bits }
    }
}

impl core::ops::Sub for AuthReq {
    type Output = AuthReq;

    /// The bits set in `self` and not in `other`: [`AuthReq::difference`].
    /// Unlike `self & !other`, this keeps the bits of `self` that name no
    /// requirement.
    fn sub(self, other: AuthReq) -> (flags: AuthReq)
        ensures
            flags@ == self@ & !other@,
    {
        self.difference(other)
    }
}

impl vstd::std_specs::ops::SubSpecImpl for AuthReq {
    open spec fn obeys_sub_spec() -> bool {
        true
    }

    open spec fn sub_req(self, other: AuthReq) -> bool {
        true
    }

    closed spec fn sub_spec(self, other: AuthReq) -> AuthReq {
        AuthReq { bits: self.bits & !other.bits }
    }
}

impl core::ops::Not for AuthReq {
    type Output = AuthReq;

    /// The requirements that are not in `self`: [`AuthReq::complement`].
    fn not(self) -> (flags: AuthReq)
        ensures
            flags@ == !self@ & AuthReq::known(),
    {
        self.complement()
    }
}

impl vstd::std_specs::ops::NotSpecImpl for AuthReq {
    open spec fn obeys_not_spec() -> bool {
        true
    }

    open spec fn not_req(self) -> bool {
        true
    }

    closed spec fn not_spec(self) -> AuthReq {
        AuthReq { bits: !self.bits & AuthReq::known() }
    }
}

impl core::ops::BitOrAssign for AuthReq {
    /// Adds the bits of `other`: [`AuthReq::insert`].
    fn bitor_assign(&mut self, other: AuthReq)
        ensures
            final(self)@ == old(self)@ | other@,
    {
        self.insert(other);
    }
}

impl core::ops::BitAndAssign for AuthReq {
    /// Keeps the bits that are also set in `other`.
    fn bitand_assign(&mut self, other: AuthReq)
        ensures
            final(self)@ == old(self)@ & other@,
    {
        self.bits = self.bits & other.bits;
    }
}

impl core::ops::BitXorAssign for AuthReq {
    /// Flips the bits of `other`: [`AuthReq::toggle`].
    fn bitxor_assign(&mut self, other: AuthReq)
        ensures
            final(self)@ == old(self)@ ^ other@,
    {
        self.toggle(other);
    }
}

impl core::ops::SubAssign for AuthReq {
    /// Clears the bits of `other`: [`AuthReq::remove`].
    fn sub_assign(&mut self, other: AuthReq)
        ensures
            final(self)@ == old(self)@ & !other@,
    {
        self.remove(other);
    }
}

} // verus!
