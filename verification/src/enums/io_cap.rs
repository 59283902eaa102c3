//! What a device can show and take in while it is paired.

use vstd::prelude::*;

verus! {

/// The input and output that a device has for pairing. The security manager
/// picks the pairing method from it.
///
/// The numbers are those of the host stack's `BLE_HS_IO_*` constants.
#[derive(Copy, Clone, PartialEq, Eq, Structural, Debug)]
pub enum SecurityIOCap {
    /// DisplayOnly IO capability (`BLE_HS_IO_DISPLAY_ONLY`).
    DisplayOnly,
    /// DisplayYesNo IO capability (`BLE_HS_IO_DISPLAY_YESNO`).
    DisplayYesNo,
    /// KeyboardOnly IO capability (`BLE_HS_IO_KEYBOARD_ONLY`).
    KeyboardOnly,
    /// NoInputNoOutput IO capability (`BLE_HS_IO_NO_INPUT_OUTPUT`).
    NoInputNoOutput,
    /// KeyboardDisplay Only IO capability (`BLE_HS_IO_KEYBOARD_DISPLAY`).
    KeyboardDisplay,
}

impl SecurityIOCap {
    /// The number that the stack uses for this capability.
    pub open spec fn spec_code(self) -> u8 {
        match self {
            SecurityIOCap::DisplayOnly => 0,
            SecurityIOCap::DisplayYesNo => 1,
            SecurityIOCap::KeyboardOnly => 2,
            SecurityIOCap::NoInputNoOutput => 3,
            SecurityIOCap::KeyboardDisplay => 4,
        }
    }

    /// The capability that the stack numbers `code`, if there is one.
    pub open spec fn spec_from_code(code: u8) -> Option<SecurityIOCap> {
        match code {
            0u8 => Some(SecurityIOCap::DisplayOnly),
            1u8 => Some(SecurityIOCap::DisplayYesNo),
            2u8 => Some(SecurityIOCap::KeyboardOnly),
            3u8 => Some(SecurityIOCap::NoInputNoOutput),
            4u8 => Some(SecurityIOCap::KeyboardDisplay),
            _ => None,
        }
    }

    /// The number that the stack uses for this capability.
    #[verifier::when_used_as_spec(spec_code)]
    pub fn code(self) -> (code: u8)
        ensures
            code == self.spec_code(),
            Self::spec_from_code(code) == Some(self),
    {
        match self {
            SecurityIOCap::DisplayOnly => 0,
            SecurityIOCap::DisplayYesNo => 1,
            SecurityIOCap::KeyboardOnly => 2,
            SecurityIOCap::NoInputNoOutput => 3,
            SecurityIOCap::KeyboardDisplay => 4,
        }
    }

    /// The capability that the stack numbers `code`, or `None` where `code` is
    /// above 4.
    #[verifier::when_used_as_spec(spec_from_code)]
    pub fn from_code(code: u8) -> (value: Option<SecurityIOCap>)
        ensures
            value == Self::spec_from_code(code),
            value is Some <==> code <= 4,
            value matches Some(cap) ==> cap.spec_code() == code,
    {
        match code {
            0 => Some(SecurityIOCap::DisplayOnly),
            1 => Some(SecurityIOCap::DisplayYesNo),
            2 => Some(SecurityIOCap::KeyboardOnly),
            3 => Some(SecurityIOCap::NoInputNoOutput),
            4 => Some(SecurityIOCap::KeyboardDisplay),
            _ => None,
        }
    }

    /// Every capability is found again from its number.
    pub proof fn lemma_code_round_trip(self)
        ensures
            Self::spec_from_code(self.spec_code()) == Some(self),
            self.spec_code() <= 4,
    {
    }

    /// The numbers 0 to 4 each name one capability, which has that number; no
    /// other number names one.
    pub proof fn lemma_from_code_round_trip(code: u8)
        ensures
            Self::spec_from_code(code) is Some <==> code <= 4,
            (match Self::spec_from_code(code) {
                Some(cap) => cap.spec_code() == code,
                None => forall|cap: SecurityIOCap| cap.spec_code() != code,
            }),
    {
    }

    /// No two capabilities share a number.
    pub proof fn lemma_code_injective(a: SecurityIOCap, b: SecurityIOCap)
        requires
            a.spec_code() == b.spec_code(),
        ensures
            a == b,
    {
    }
}

} // verus!
