//! The connectable and discoverable modes of an advertiser.

use vstd::prelude::*;

verus! {

/// Whether, and by whom, an advertiser can be connected to.
///
/// The numbers are those of the host stack's `BLE_GAP_CONN_MODE_*` constants.
#[derive(Copy, Clone, PartialEq, Eq, Structural, Debug)]
pub enum ConnMode {
    /// non-connectable, 3.C.9.3.2 (`BLE_GAP_CONN_MODE_NON`).
    Non,
    /// directed-connectable, 3.C.9.3.3 (`BLE_GAP_CONN_MODE_DIR`).
    Dir,
    /// undirected-connectable, 3.C.9.3.4 (`BLE_GAP_CONN_MODE_UND`).
    Und,
}

impl ConnMode {
    /// The number that the stack uses for this mode.
    pub open spec fn spec_code(self) -> u8 {
        match self {
            ConnMode::Non => 0,
            ConnMode::Dir => 1,
            ConnMode::Und => 2,
        }
    }

    /// The mode that the stack numbers `code`, if there is one.
    pub open spec fn spec_from_code(code: u8) -> Option<ConnMode> {
        match code {
            0u8 => Some(ConnMode::Non),
            1u8 => Some(ConnMode::Dir),
            2u8 => Some(ConnMode::Und),
            _ => None,
        }
    }

    /// The number that the stack uses for this mode.
    #[verifier::when_used_as_spec(spec_code)]
    pub fn code(self) -> (code: u8)
        ensures
            code == self.spec_code(),
            Self::spec_from_code(code) == Some(self),
    {
        match self {
            ConnMode::Non => 0,
            ConnMode::Dir => 1,
            ConnMode::Und => 2,
        }
    }

    /// The mode that the stack numbers `code`, or `None` where `code` is above
    /// 2.
    #[verifier::when_used_as_spec(spec_from_code)]
    pub fn from_code(code: u8) -> (value: Option<ConnMode>)
        ensures
            value == Self::spec_from_code(code),
            value is Some <==> code <= 2,
            value matches Some(mode) ==> mode.spec_code() == code,
    {
        match code {
            0 => Some(ConnMode::Non),
            1 => Some(ConnMode::Dir),
            2 => Some(ConnMode::Und),
            _ => None,
        }
    }

    /// Every mode is found again from its number.
    pub proof fn lemma_code_round_trip(self)
        ensures
            Self::spec_from_code(self.spec_code()) == Some(self),
            self.spec_code() <= 2,
    {
    }

    /// The numbers 0 to 2 each name one mode, which has that number; no other
    /// number names one.
    pub proof fn lemma_from_code_round_trip(code: u8)
        ensures
            Self::spec_from_code(code) is Some <==> code <= 2,
            (match Self::spec_from_code(code) {
                Some(mode) => mode.spec_code() == code,
                None => forall|mode: ConnMode| mode.spec_code() != code,
            }),
    {
    }

    /// No two modes share a number.
    pub proof fn lemma_code_injective(a: ConnMode, b: ConnMode)
        requires
            a.spec_code() == b.spec_code(),
        ensures
            a == b,
    {
    }
}

/// Whether, and for how long, an advertiser can be discovered.
///
/// The numbers are those of the host stack's `BLE_GAP_DISC_MODE_*` constants.
#[derive(Copy, Clone, PartialEq, Eq, Structural, Debug)]
pub enum DiscMode {
    /// non-discoverable, 3.C.9.2.2 (`BLE_GAP_DISC_MODE_NON`).
    Non,
    /// limited-discoverable, 3.C.9.2.3 (`BLE_GAP_DISC_MODE_LTD`).
    Ltd,
    /// general-discoverable, 3.C.9.2.4 (`BLE_GAP_DISC_MODE_GEN`).
    Gen,
}

impl DiscMode {
    /// The number that the stack uses for this mode.
    pub open spec fn spec_code(self) -> u8 {
        match self {
            DiscMode::Non => 0,
            DiscMode::Ltd => 1,
            DiscMode::Gen => 2,
        }
    }

    /// The mode that the stack numbers `code`, if there is one.
    pub open spec fn spec_from_code(code: u8) -> Option<DiscMode> {
        match code {
            0u8 => Some(DiscMode::Non),
            1u8 => Some(DiscMode::Ltd),
            2u8 => Some(DiscMode::Gen),
            _ => None,
        }
    }

    /// The number that the stack uses for this mode.
    #[verifier::when_used_as_spec(spec_code)]
    pub fn code(self) -> (code: u8)
        ensures
            code == self.spec_code(),
            Self::spec_from_code(code) == Some(self),
    {
        match self {
            DiscMode::Non => 0,
            DiscMode::Ltd => 1,
            DiscMode::Gen => 2,
        }
    }

    /// The mode that the stack numbers `code`, or `None` where `code` is above
    /// 2.
    #[verifier::when_used_as_spec(spec_from_code)]
    pub fn from_code(code: u8) -> (value: Option<DiscMode>)
        ensures
            value == Self::spec_from_code(code),
            value is Some <==> code <= 2,
            value matches Some(mode) ==> mode.spec_code() == code,
    {
        match code {
            0 => Some(DiscMode::Non),
            1 => Some(DiscMode::Ltd),
            2 => Some(DiscMode::Gen),
            _ => None,
        }
    }

    /// Every mode is found again from its number.
    pub proof fn lemma_code_round_trip(self)
        ensures
            Self::spec_from_code(self.spec_code()) == Some(self),
            self.spec_code() <= 2,
    {
    }

    /// The numbers 0 to 2 each name one mode, which has that number; no other
    /// number names one.
    pub proof fn lemma_from_code_round_trip(code: u8)
        ensures
            Self::spec_from_code(code) is Some <==> code <= 2,
            (match Self::spec_from_code(code) {
                Some(mode) => mode.spec_code() == code,
                None => forall|mode: DiscMode| mode.spec_code() != code,
            }),
    {
    }

    /// No two modes share a number.
    pub proof fn lemma_code_injective(a: DiscMode, b: DiscMode)
        requires
            a.spec_code() == b.spec_code(),
        ensures
            a == b,
    {
    }
}

} // verus!
