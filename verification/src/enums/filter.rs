//! The use that a scanner and an advertiser make of the white list.

use vstd::prelude::*;

verus! {

/// Which advertising packets a scanner processes.
///
/// The numbers are those of the `BLE_HCI_SCAN_FILT_*` constants.
#[derive(Copy, Clone, PartialEq, Eq, Structural, Debug)]
pub enum ScanFilterPolicy {
    /// Scanner processes all advertising packets (white list not used) except
    /// directed, connectable advertising packets not sent to the scanner
    /// (`BLE_HCI_SCAN_FILT_NO_WL`).
    NoWl,
    /// Scanner processes advertisements from white list only. A connectable,
    /// directed advertisement is ignored unless it contains scanners address
    /// (`BLE_HCI_SCAN_FILT_USE_WL`).
    UseWl,
    /// Scanner process all advertising packets (white list not used). A
    /// connectable, directed advertisement shall not be ignored if the InitA is
    /// a resolvable private address (`BLE_HCI_SCAN_FILT_NO_WL_INITA`).
    NoWlInitA,
    /// Scanner process advertisements from white list only. A connectable,
    /// directed advertisement shall not be ignored if the InitA is a resolvable
    /// private address (`BLE_HCI_SCAN_FILT_USE_WL_INITA`).
    UseWlInitA,
}

impl ScanFilterPolicy {
    /// The number that the stack uses for this policy.
    pub open spec fn spec_code(self) -> u8 {
        match self {
            ScanFilterPolicy::NoWl => 0,
            ScanFilterPolicy::UseWl => 1,
            ScanFilterPolicy::NoWlInitA => 2,
            ScanFilterPolicy::UseWlInitA => 3,
        }
    }

    /// The policy that the stack numbers `code`, if there is one.
    pub open spec fn spec_from_code(code: u8) -> Option<ScanFilterPolicy> {
        match code {
            0u8 => Some(ScanFilterPolicy::NoWl),
            1u8 => Some(ScanFilterPolicy::UseWl),
            2u8 => Some(ScanFilterPolicy::NoWlInitA),
            3u8 => Some(ScanFilterPolicy::UseWlInitA),
            _ => None,
        }
    }

    /// The number that the stack uses for this policy.
    #[verifier::when_used_as_spec(spec_code)]
    pub fn code(self) -> (code: u8)
        ensures
            code == self.spec_code(),
            Self::spec_from_code(code) == Some(self),
    {
        match self {
            ScanFilterPolicy::NoWl => 0,
            ScanFilterPolicy::UseWl => 1,
            ScanFilterPolicy::NoWlInitA => 2,
            ScanFilterPolicy::UseWlInitA => 3,
        }
    }

    /// The policy that the stack numbers `code`, or `None` where `code` is
    /// above 3.
    #[verifier::when_used_as_spec(spec_from_code)]
    pub fn from_code(code: u8) -> (value: Option<ScanFilterPolicy>)
        ensures
            value == Self::spec_from_code(code),
            value is Some <==> code <= 3,
            value matches Some(policy) ==> policy.spec_code() == code,
    {
        match code {
            0 => Some(ScanFilterPolicy::NoWl),
            1 => Some(ScanFilterPolicy::UseWl),
            2 => Some(ScanFilterPolicy::NoWlInitA),
            3 => Some(ScanFilterPolicy::UseWlInitA),
            _ => None,
        }
    }

    /// Every policy is found again from its number.
    pub proof fn lemma_code_round_trip(self)
        ensures
            Self::spec_from_code(self.spec_code()) == Some(self),
            self.spec_code() <= 3,
    {
    }

    /// The numbers 0 to 3 each name one policy, which has that number; no other
    /// number names one.
    pub proof fn lemma_from_code_round_trip(code: u8)
        ensures
            Self::spec_from_code(code) is Some <==> code <= 3,
            (match Self::spec_from_code(code) {
                Some(policy) => policy.spec_code() == code,
                None => forall|policy: ScanFilterPolicy| policy.spec_code() != code,
            }),
    {
    }

    /// No two policies share a number.
    pub proof fn lemma_code_injective(a: ScanFilterPolicy, b: ScanFilterPolicy)
        requires
            a.spec_code() == b.spec_code(),
        ensures
            a == b,
    {
    }
}

/// Which scan and connection requests an advertiser answers.
///
/// The numbers are those of the `BLE_HCI_ADV_FILT_*` constants.
#[derive(Copy, Clone, PartialEq, Eq, Structural, Debug)]
pub enum AdvFilterPolicy {
    /// No filtering (`BLE_HCI_ADV_FILT_NONE`).
    NoFilter,
    /// only allow scan requests from those on the white list
    /// (`BLE_HCI_ADV_FILT_SCAN`).
    Scan,
    /// only allow connections from those on the white list
    /// (`BLE_HCI_ADV_FILT_CONN`).
    Connect,
    /// only allow scan/connections from those on the white list
    /// (`BLE_HCI_ADV_FILT_BOTH`).
    Both,
}

impl AdvFilterPolicy {
    /// The number that the stack uses for this policy.
    pub open spec fn spec_code(self) -> u8 {
        match self {
            AdvFilterPolicy::NoFilter => 0,
            AdvFilterPolicy::Scan => 1,
            AdvFilterPolicy::Connect => 2,
            AdvFilterPolicy::Both => 3,
        }
    }

    /// The policy that the stack numbers `code`, if there is one.
    pub open spec fn spec_from_code(code: u8) -> Option<AdvFilterPolicy> {
        match code {
            0u8 => Some(AdvFilterPolicy::NoFilter),
            1u8 => Some(AdvFilterPolicy::Scan),
            2u8 => Some(AdvFilterPolicy::Connect),
            3u8 => Some(AdvFilterPolicy::Both),
            _ => None,
        }
    }

    /// The number that the stack uses for this policy.
    #[verifier::when_used_as_spec(spec_code)]
    pub fn code(self) -> (code: u8)
        ensures
            code == self.spec_code(),
            Self::spec_from_code(code) == Some(self),
    {
        match self {
            AdvFilterPolicy::NoFilter => 0,
            AdvFilterPolicy::Scan => 1,
            AdvFilterPolicy::Connect => 2,
            AdvFilterPolicy::Both => 3,
        }
    }

    /// The policy that the stack numbers `code`, or `None` where `code` is
    /// above 3.
    #[verifier::when_used_as_spec(spec_from_code)]
    pub fn from_code(code: u8) -> (value: Option<AdvFilterPolicy>)
        ensures
            value == Self::spec_from_code(code),
            value is Some <==> code <= 3,
            value matches Some(policy) ==> policy.spec_code() == code,
    {
        match code {
            0 => Some(AdvFilterPolicy::NoFilter),
            1 => Some(AdvFilterPolicy::Scan),
            2 => Some(AdvFilterPolicy::Connect),
            3 => Some(AdvFilterPolicy::Both),
            _ => None,
        }
    }

    /// Every policy is found again from its number.
    pub proof fn lemma_code_round_trip(self)
        ensures
            Self::spec_from_code(self.spec_code()) == Some(self),
            self.spec_code() <= 3,
    {
    }

    /// The numbers 0 to 3 each name one policy, which has that number; no other
    /// number names one.
    pub proof fn lemma_from_code_round_trip(code: u8)
        ensures
            Self::spec_from_code(code) is Some <==> code <= 3,
            (match Self::spec_from_code(code) {
                Some(policy) => policy.spec_code() == code,
                None => forall|policy: AdvFilterPolicy| policy.spec_code() != code,
            }),
    {
    }

    /// No two policies share a number.
    pub proof fn lemma_code_injective(a: AdvFilterPolicy, b: AdvFilterPolicy)
        requires
            a.spec_code() == b.spec_code(),
        ensures
            a == b,
    {
    }
}

impl From<ScanFilterPolicy> for u8 {
    /// The number that the stack uses for `policy`: [`ScanFilterPolicy::code`].
    fn from(policy: ScanFilterPolicy) -> (code: u8)
        ensures
            code == policy.spec_code(),
    {
        policy.code()
    }
}

impl vstd::std_specs::convert::FromSpecImpl<ScanFilterPolicy> for u8 {
    open spec fn obeys_from_spec() -> bool {
        true
    }

    open spec fn from_spec(policy: ScanFilterPolicy) -> u8 {
        policy.spec_code()
    }
}

impl From<AdvFilterPolicy> for u8 {
    /// The number that the stack uses for `policy`: [`AdvFilterPolicy::code`].
    fn from(policy: AdvFilterPolicy) -> (code: u8)
        ensures
            code == policy.spec_code(),
    {
        policy.code()
    }
}

impl vstd::std_specs::convert::FromSpecImpl<AdvFilterPolicy> for u8 {
    open spec fn obeys_from_spec() -> bool {
        true
    }

    open spec fn from_spec(policy: AdvFilterPolicy) -> u8 {
        policy.spec_code()
    }
}

} // verus!
