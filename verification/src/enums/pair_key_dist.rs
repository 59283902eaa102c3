//! The keys that are exchanged during pairing.

use crate::enums::bitset::{
    lemma_complement, lemma_contains_all, lemma_difference, lemma_intersection,
    lemma_subset_order, lemma_truncate, lemma_union, overlap, subset, within,
};
use vstd::prelude::*;

verus! {

/// The keys that a device accepts or distributes during pairing, as a set.
///
/// The view of a value is its bit pattern. A value may carry bits that name
/// no key. Only [`PairKeyDist::complement`] and
/// [`PairKeyDist::from_bits_truncate`] clear such bits of their own accord,
/// and [`PairKeyDist::from_bits`] refuses them.
#[derive(Debug, Clone, Copy, PartialEq, Eq, Structural)]
pub struct PairKeyDist {
    bits: u8,
}

impl View for PairKeyDist {
    type V = u8;

    closed spec fn view(&self) -> u8 {
        self.bits
    }
}

/// The union of the keys, as the executable code holds it.
const KNOWN: u8 = 0x0f;

impl PairKeyDist {
    /// The bits that name a key: the union of the keys.
    pub open spec fn known() -> u8 {
        0x01u8 | 0x02u8 | 0x04u8 | 0x08u8
    }

    /// Whether every bit of `other` is set in `self`.
    pub open spec fn spec_contains(&self, other: Self) -> bool {
        subset(other@, self@)
    }

    /// Whether `self` and `other` have a bit in common.
    pub open spec fn spec_intersects(&self, other: Self) -> bool {
        overlap(self@, other@)
    }

    /// Whether no bit is set.
    pub open spec fn spec_is_empty(&self) -> bool {
        self@ == 0
    }

    /// Whether all of the keys are in `self`.
    pub open spec fn spec_is_all(&self) -> bool {
        subset(Self::known(), self@)
    }

    /// Two values with the same bit pattern are the same value.
    pub proof fn lemma_equal_by_bits(a: Self, b: Self)
        requires
            a@ == b@,
        ensures
            a == b,
    {
    }

    /// The executable code holds the same known bits as the specification.
    proof fn lemma_known()
        ensures
            Self::known() == KNOWN,
    {
        assert(0x01u8 | 0x02u8 | 0x04u8 | 0x08u8 == 0x0fu8) by (bit_vector);
    }

    /// Accept/Distribute the encryption key (`BLE_SM_PAIR_KEY_DIST_ENC`).
    #[allow(non_snake_case)]
    pub fn ENC() -> (flag: Self)
        ensures
            flag@ == 0x01,
    {
        PairKeyDist { bits: 0x01 }
    }

    /// Accept/Distribute the ID key, the IRK (`BLE_SM_PAIR_KEY_DIST_ID`).
    #[allow(non_snake_case)]
    pub fn ID() -> (flag: Self)
        ensures
            flag@ == 0x02,
    {
        PairKeyDist { bits: 0x02 }
    }

    /// Accept/Distribute the signing key, the CSRK
    /// (`BLE_SM_PAIR_KEY_DIST_SIGN`).
    #[allow(non_snake_case)]
    pub fn SIGN() -> (flag: Self)
        ensures
            flag@ == 0x04,
    {
        PairKeyDist { bits: 0x04 }
    }

    /// Accept/Distribute the link key (`BLE_SM_PAIR_KEY_DIST_LINK`).
    #[allow(non_snake_case)]
    pub fn LINK() -> (flag: Self)
        ensures
            flag@ == 0x08,
    {
        PairKeyDist { bits: 0x08 }
    }

    /// The set without any bit.
    pub fn empty() -> (flags: Self)
        ensures
            flags@ == 0,
            flags.spec_is_empty(),
    {
        PairKeyDist { bits: 0 }
    }

    /// The set of all of the keys, and of nothing else.
    pub fn all() -> (flags: Self)
        ensures
            flags@ == Self::known(),
            flags.spec_is_all(),
            within(flags@, Self::known()),
    {
        proof {
            Self::lemma_known();
            lemma_truncate(KNOWN, KNOWN);
            lemma_subset_order(KNOWN, KNOWN, KNOWN);
        }
        PairKeyDist { bits: KNOWN }
    }

    /// The bit pattern of the set.
    pub fn bits(&self) -> (bits: u8)
        ensures
            bits == self@,
    {
        self.bits
    }

    /// The set with the bit pattern `bits`, unless `bits` has a bit that names
    /// no key.
    pub fn from_bits(bits: u8) -> (flags: Option<Self>)
        ensures
            flags is Some <==> within(bits, Self::known()),
            flags matches Some(f) ==> f@ == bits,
    {
        proof {
            Self::lemma_known();
            lemma_truncate(bits, KNOWN);
        }
        let truncated: u8 = bits & KNOWN;
        if truncated == bits {
            Some(PairKeyDist { bits })
        } else {
            None
        }
    }

    /// The set with the bit pattern `bits`, without the bits that name no
    /// key.
    pub fn from_bits_truncate(bits: u8) -> (flags: Self)
        ensures
            flags@ == bits & Self::known(),
            within(flags@, Self::known()),
    {
        proof {
            Self::lemma_known();
            lemma_truncate(bits, KNOWN);
        }
        PairKeyDist { bits: bits & KNOWN }
    }

    /// The set with the bit pattern `bits`, whatever bits it has.
    pub fn from_bits_retain(bits: u8) -> (flags: Self)
        ensures
            flags@ == bits,
    {
        PairKeyDist { bits }
    }

    /// Whether no bit is set.
    #[verifier::when_used_as_spec(spec_is_empty)]
    pub fn is_empty(&self) -> (empty: bool)
        ensures
            empty == self.spec_is_empty(),
    {
        self.bits == 0
    }

    /// Whether all of the keys are in the set.
    #[verifier::when_used_as_spec(spec_is_all)]
    pub fn is_all(&self) -> (all: bool)
        ensures
            all == self.spec_is_all(),
    {
        proof {
            Self::lemma_known();
            lemma_contains_all(self.bits, KNOWN);
        }
        KNOWN | self.bits == self.bits
    }

    /// Whether the two sets have a bit in common.
    #[verifier::when_used_as_spec(spec_intersects)]
    pub fn intersects(&self, other: Self) -> (shared: bool)
        ensures
            shared == self.spec_intersects(other),
    {
        self.bits & other.bits != 0
    }

    /// Whether every bit of `other` is set in `self`.
    #[verifier::when_used_as_spec(spec_contains)]
    pub fn contains(&self, other: Self) -> (inside: bool)
        ensures
            inside == self.spec_contains(other),
    {
        self.bits & other.bits == other.bits
    }

    /// Adds the bits of `other`. The set then contains `other` and what it
    /// held before.
    pub fn insert(&mut self, other: Self)
        ensures
            final(self)@ == old(self)@ | other@,
            final(self).spec_contains(other),
            final(self).spec_contains(*old(self)),
    {
        proof {
            lemma_union(self.bits, other.bits);
        }
        self.bits = self.bits | other.bits;
    }

    /// Clears the bits of `other`. The set then shares nothing with `other`
    /// and holds nothing that it did not hold before.
    pub fn remove(&mut self, other: Self)
        ensures
            final(self)@ == old(self)@ & !other@,
            !final(self).spec_intersects(other),
            old(self).spec_contains(*final(self)),
    {
        proof {
            lemma_difference(self.bits, other.bits);
        }
        self.bits = self.bits & !other.bits;
    }

    /// Flips the bits of `other`.
    pub fn toggle(&mut self, other: Self)
        ensures
            final(self)@ == old(self)@ ^ other@,
    {
        self.bits = self.bits ^ other.bits;
    }

    /// Adds the bits of `other` if `value` is true, and clears them if not.
    pub fn set(&mut self, other: Self, value: bool)
        ensures
            value ==> final(self)@ == old(self)@ | other@,
            !value ==> final(self)@ == old(self)@ & !other@,
            value ==> final(self).spec_contains(other),
            !value ==> !final(self).spec_intersects(other),
    {
        if value {
            self.insert(other);
        } else {
            self.remove(other);
        }
    }

    /// The bits set in both: the largest set that both contain.
    pub fn intersection(self, other: Self) -> (flags: Self)
        ensures
            flags@ == self@ & other@,
            self.spec_contains(flags),
            other.spec_contains(flags),
    {
        proof {
            lemma_intersection(self.bits, other.bits);
        }
        PairKeyDist { bits: self.bits & other.bits }
    }

    /// The bits set in either: the smallest set that contains both.
    pub fn union(self, other: Self) -> (flags: Self)
        ensures
            flags@ == self@ | other@,
            flags.spec_contains(self),
            flags.spec_contains(other),
    {
        proof {
            lemma_union(self.bits, other.bits);
        }
        PairKeyDist { bits: self.bits | other.bits }
    }

    /// The bits set in `self` and not in `other`.
    pub fn difference(self, other: Self) -> (flags: Self)
        ensures
            flags@ == self@ & !other@,
            self.spec_contains(flags),
            !flags.spec_intersects(other),
    {
        proof {
            lemma_difference(self.bits, other.bits);
        }
        PairKeyDist { bits: self.bits & !other.bits }
    }

    /// The bits set in exactly one of the two.
    pub fn symmetric_difference(self, other: Self) -> (flags: Self)
        ensures
            flags@ == self@ ^ other@,
    {
        PairKeyDist { bits: self.bits ^ other.bits }
    }

    /// The keys that are not in `self`. Bits that name no key are
    /// dropped.
    pub fn complement(self) -> (flags: Self)
        ensures
            flags@ == !self@ & Self::known(),
            within(flags@, Self::known()),
            !flags.spec_intersects(self),
    {
        proof {
            lemma_complement(self.bits, Self::known());
        }
        Self::from_bits_truncate(!self.bits)
    }
}

impl core::ops::BitOr for PairKeyDist {
    type Output = PairKeyDist;

    /// The bits set in either: [`PairKeyDist::union`].
    fn bitor(self, other: PairKeyDist) -> (flags: PairKeyDist)
        ensures
            flags@ == self@ | other@,
    {
        self.union(other)
    }
}

impl vstd::std_specs::ops::BitOrSpecImpl for PairKeyDist {
    open spec fn obeys_bitor_spec() -> bool {
        true
    }

    open spec fn bitor_req(self, other: PairKeyDist) -> bool {
        true
    }

    closed spec fn bitor_spec(self, other: PairKeyDist) -> PairKeyDist {
        PairKeyDist { bits: self.bits | other.bits }
    }
}

impl core::ops::BitAnd for PairKeyDist {
    type Output = PairKeyDist;

    /// The bits set in both: [`PairKeyDist::intersection`].
    fn bitand(self, other: PairKeyDist) -> (flags: PairKeyDist)
        ensures
            flags@ == self@ & other@,
    {
        self.intersection(other)
    }
}

impl vstd::std_specs::ops::BitAndSpecImpl for PairKeyDist {
    open spec fn obeys_bitand_spec() -> bool {
        true
    }

    open spec fn bitand_req(self, other: PairKeyDist) -> bool {
        true
    }

    closed spec fn bitand_spec(self, other: PairKeyDist) -> PairKeyDist {
        PairKeyDist { bits: self.bits & other.bits }
    }
}

impl core::ops::BitXor for PairKeyDist {
    type Output = PairKeyDist;

    /// The bits set in exactly one of the two:
    /// [`PairKeyDist::symmetric_difference`].
    fn bitxor(self, other: PairKeyDist) -> (flags: PairKeyDist)
        ensures
            flags@ == self@ ^ other@,
    {
        self.symmetric_difference(other)
    }
}

impl vstd::std_specs::ops::BitXorSpecImpl for PairKeyDist {
    open spec fn obeys_bitxor_spec() -> bool {
        true
    }

    open spec fn bitxor_req(self, other: PairKeyDist) -> bool {
        true
    }

    closed spec fn bitxor_spec(self, other: PairKeyDist) -> PairKeyDist {
        PairKeyDist { bits: self.bits ^ other.bits }
    }
}

impl core::ops::Sub for PairKeyDist {
    type Output = PairKeyDist;

    /// The bits set in `self` and not in `other`:
    /// [`PairKeyDist::difference`]. Unlike `self & !other`, this keeps the
    /// bits of `self` that name no key.
    fn sub(self, other: PairKeyDist) -> (flags: PairKeyDist)
        ensures
            flags@ == self@ & !other@,
    {
        self.difference(other)
    }
}

impl vstd::std_specs::ops::SubSpecImpl for PairKeyDist {
    open spec fn obeys_sub_spec() -> bool {
        true
    }

    open spec fn sub_req(self, other: PairKeyDist) -> bool {
        true
    }

    closed spec fn sub_spec(self, other: PairKeyDist) -> PairKeyDist {
        PairKeyDist { bits: self.bits & !other.bits }
    }
}

impl core::ops::Not for PairKeyDist {
    type Output = PairKeyDist;

    /// The keys that are not in `self`: [`PairKeyDist::complement`].
    fn not(self) -> (flags: PairKeyDist)
        ensures
            flags@ == !self@ & PairKeyDist::known(),
    {
        self.complement()
    }
}

impl vstd::std_specs::ops::NotSpecImpl for PairKeyDist {
    open spec fn obeys_not_spec() -> bool {
        true
    }

    open spec fn not_req(self) -> bool {
        true
    }

    closed spec fn not_spec(self) -> PairKeyDist {
        PairKeyDist { bits: !self.bits & PairKeyDist::known() }
    }
}

impl core::ops::BitOrAssign for PairKeyDist {
    /// Adds the bits of `other`: [`PairKeyDist::insert`].
    fn bitor_assign(&mut self, other: PairKeyDist)
        ensures
            final(self)@ == old(self)@ | other@,
    {
        self.insert(other);
    }
}

impl core::ops::BitAndAssign for PairKeyDist {
    /// Keeps the bits that are also set in `other`.
    fn bitand_assign(&mut self, other: PairKeyDist)
        ensures
            final(self)@ == old(self)@ & other@,
    {
        self.bits = self.bits & other.bits;
    }
}

impl core::ops::BitXorAssign for PairKeyDist {
    /// Flips the bits of `other`: [`PairKeyDist::toggle`].
    fn bitxor_assign(&mut self, other: PairKeyDist)
        ensures
            final(self)@ == old(self)@ ^ other@,
    {
        self.toggle(other);
    }
}

impl core::ops::SubAssign for PairKeyDist {
    /// Clears the bits of `other`: [`PairKeyDist::remove`].
    fn sub_assign(&mut self, other: PairKeyDist)
        ensures
            final(self)@ == old(self)@ & !other@,
    {
        self.remove(other);
    }
}

} // verus!
