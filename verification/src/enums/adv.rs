//! The types of advertising.

use vstd::prelude::*;

verus! {

/// The kind of advertising packet that an advertiser sends.
///
/// The numbers are those of the `BLE_HCI_ADV_TYPE_*` constants. Low duty cycle
/// directed advertising, which they number 4, has no variant here.
#[derive(Copy, Clone, PartialEq, Eq, Structural, Debug)]
pub enum AdvType {
    /// indirect advertising (`BLE_HCI_ADV_TYPE_ADV_IND`).
    Ind,
    /// direct advertising (`BLE_HCI_ADV_TYPE_ADV_DIRECT_IND_HD`).
    DirectInd,
    /// indirect scan response (`BLE_HCI_ADV_TYPE_ADV_SCAN_IND`).
    ScanInd,
    /// indirect advertising - not connectable
    /// (`BLE_HCI_ADV_TYPE_ADV_NONCONN_IND`).
    NonconnInd,
}

impl AdvType {
    /// The number that the stack uses for this advertising type.
    pub open spec fn spec_code(self) -> u8 {
        match self {
            AdvType::Ind => 0,
            AdvType::DirectInd => 1,
            AdvType::ScanInd => 2,
            AdvType::NonconnInd => 3,
        }
    }

    /// The advertising type that the stack numbers `code`, if there is one.
    pub open spec fn spec_from_code(code: u8) -> Option<AdvType> {
        match code {
            0u8 => Some(AdvType::Ind),
            1u8 => Some(AdvType::DirectInd),
            2u8 => Some(AdvType::ScanInd),
            3u8 => Some(AdvType::NonconnInd),
            _ => None,
        }
    }

    /// The number that the stack uses for this advertising type.
    #[verifier::when_used_as_spec(spec_code)]
    pub fn code(self) -> (code: u8)
        ensures
            code == self.spec_code(),
            Self::spec_from_code(code) == Some(self),
    {
        match self {
            AdvType::Ind => 0,
            AdvType::DirectInd => 1,
            AdvType::ScanInd => 2,
            AdvType::NonconnInd => 3,
        }
    }

    /// The advertising type that the stack numbers `code`, or `None` where
    /// `code` is above 3.
    #[verifier::when_used_as_spec(spec_from_code)]
    pub fn from_code(code: u8) -> (value: Option<AdvType>)
        ensures
            value == Self::spec_from_code(code),
            value is Some <==> code <= 3,
            value matches Some(adv_type) ==> adv_type.spec_code() == code,
    {
        match code {
            0 => Some(AdvType::Ind),
            1 => Some(AdvType::DirectInd),
            2 => Some(AdvType::ScanInd),
            3 => Some(AdvType::NonconnInd),
            _ => None,
        }
    }

    /// Every advertising type is found again from its number.
    pub proof fn lemma_code_round_trip(self)
        ensures
            Self::spec_from_code(self.spec_code()) == Some(self),
            self.spec_code() <= 3,
    {
    }

    /// The numbers 0 to 3 each name one advertising type, which has that
    /// number; no other number names one.
    pub proof fn lemma_from_code_round_trip(code: u8)
        ensures
            Self::spec_from_code(code) is Some <==> code <= 3,
            (match Self::spec_from_code(code) {
                Some(adv_type) => adv_type.spec_code() == code,
                None => forall|adv_type: AdvType| adv_type.spec_code() != code,
            }),
    {
    }

    /// No two advertising types share a number.
    pub proof fn lemma_code_injective(a: AdvType, b: AdvType)
        requires
            a.spec_code() == b.spec_code(),
        ensures
            a == b,
    {
    }

    /// What [`AdvType::try_from_primitive`] returns for `number`.
    pub open spec fn spec_try_from_primitive(number: u8) -> Result<
        AdvType,
        TryFromPrimitiveError,
    > {
        match Self::spec_from_code(number) {
            Some(adv_type) => Ok(adv_type),
            None => Err(TryFromPrimitiveError { number }),
        }
    }

    /// The advertising type that the stack numbers `number`. A number above 3
    /// names none and comes back in the error.
    #[verifier::when_used_as_spec(spec_try_from_primitive)]
    pub fn try_from_primitive(number: u8) -> (value: Result<
        AdvType,
        TryFromPrimitiveError,
    >)
        ensures
            value == Self::spec_try_from_primitive(number),
            value is Ok <==> number <= 3,
            value matches Ok(adv_type) ==> adv_type.spec_code() == number,
            value matches Err(error) ==> error.number == number,
    {
        match Self::from_code(number) {
            Some(adv_type) => Ok(adv_type),
            None => Err(TryFromPrimitiveError::new(number)),
        }
    }
}

/// The error of a conversion from a number that names no variant.
#[derive(Copy, Clone, PartialEq, Eq, Structural, Debug)]
pub struct TryFromPrimitiveError {
    /// The number that was to be converted.
    pub number: u8,
}

impl TryFromPrimitiveError {
    /// The error for `number`.
    pub fn new(number: u8) -> (error: TryFromPrimitiveError)
        ensures
            error == (TryFromPrimitiveError { number }),
    {
        TryFromPrimitiveError { number }
    }
}

impl TryFrom<u8> for AdvType {
    type Error = TryFromPrimitiveError;

    /// The same as [`AdvType::try_from_primitive`].
    fn try_from(number: u8) -> (value: Result<AdvType, TryFromPrimitiveError>)
        ensures
            value == AdvType::spec_try_from_primitive(number),
    {
        AdvType::try_from_primitive(number)
    }
}

impl vstd::std_specs::convert::TryFromSpecImpl<u8> for AdvType {
    open spec fn obeys_try_from_spec() -> bool {
        true
    }

    open spec fn try_from_spec(number: u8) -> Result<AdvType, TryFromPrimitiveError> {
        AdvType::spec_try_from_primitive(number)
    }
}

} // verus!
