//! The address that a device presents as its own.

use vstd::prelude::*;

verus! {

/// The kind of address that the device uses for itself when it advertises,
/// scans or connects.
///
/// The numbers are those of the host stack's `BLE_OWN_ADDR_*` constants.
#[derive(Copy, Clone, PartialEq, Eq, Structural, Debug)]
pub enum OwnAddrType {
    /// The public device address (`BLE_OWN_ADDR_PUBLIC`).
    Public,
    /// The random device address (`BLE_OWN_ADDR_RANDOM`).
    Random,
    /// A resolvable private address; the public address where the device has
    /// none (`BLE_OWN_ADDR_RPA_PUBLIC_DEFAULT`).
    RpaPublicDefault,
    /// A resolvable private address; the random address where the device has
    /// none (`BLE_OWN_ADDR_RPA_RANDOM_DEFAULT`).
    RpaRandomDefault,
}

impl OwnAddrType {
    /// The number that the stack uses for this address type.
    pub open spec fn spec_code(self) -> u8 {
        match self {
            OwnAddrType::Public => 0,
            OwnAddrType::Random => 1,
            OwnAddrType::RpaPublicDefault => 2,
            OwnAddrType::RpaRandomDefault => 3,
        }
    }

    /// The address type that the stack numbers `code`, if there is one.
    pub open spec fn spec_from_code(code: u8) -> Option<OwnAddrType> {
        match code {
            0u8 => Some(OwnAddrType::Public),
            1u8 => Some(OwnAddrType::Random),
            2u8 => Some(OwnAddrType::RpaPublicDefault),
            3u8 => Some(OwnAddrType::RpaRandomDefault),
            _ => None,
        }
    }

    /// The number that the stack uses for this address type.
    #[verifier::when_used_as_spec(spec_code)]
    pub fn code(self) -> (code: u8)
        ensures
            code == self.spec_code(),
            Self::spec_from_code(code) == Some(self),
    {
        match self {
            OwnAddrType::Public => 0,
            OwnAddrType::Random => 1,
            OwnAddrType::RpaPublicDefault => 2,
            OwnAddrType::RpaRandomDefault => 3,
        }
    }

    /// The address type that the stack numbers `code`, or `None` where `code`
    /// is above 3.
    #[verifier::when_used_as_spec(spec_from_code)]
    pub fn from_code(code: u8) -> (value: Option<OwnAddrType>)
        ensures
            value == Self::spec_from_code(code),
            value is Some <==> code <= 3,
            value matches Some(addr_type) ==> addr_type.spec_code() == code,
    {
        match code {
            0 => Some(OwnAddrType::Public),
            1 => Some(OwnAddrType::Random),
            2 => Some(OwnAddrType::RpaPublicDefault),
            3 => Some(OwnAddrType::RpaRandomDefault),
            _ => None,
        }
    }

    /// Every address type is found again from its number.
    pub proof fn lemma_code_round_trip(self)
        ensures
            Self::spec_from_code(self.spec_code()) == Some(self),
            self.spec_code() <= 3,
    {
    }

    /// The numbers 0 to 3 each name one address type, which has that number; no
    /// other number names one.
    pub proof fn lemma_from_code_round_trip(code: u8)
        ensures
            Self::spec_from_code(code) is Some <==> code <= 3,
            (match Self::spec_from_code(code) {
                Some(addr_type) => addr_type.spec_code() == code,
                None => forall|addr_type: OwnAddrType| addr_type.spec_code() != code,
            }),
    {
    }

    /// No two address types share a number.
    pub proof fn lemma_code_injective(a: OwnAddrType, b: OwnAddrType)
        requires
            a.spec_code() == b.spec_code(),
        ensures
            a == b,
    {
    }
}

} // verus!
