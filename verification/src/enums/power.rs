//! Transmit power of the Bluetooth controller: the levels it offers and the
//! kinds of traffic that a level can be set for.

use vstd::prelude::*;

verus! {

/// A transmit power level of the controller.
///
/// The numbers are those of `esp_power_level_t` on the ESP32, which counts the
/// levels from 0 for -12 dBm to 7 for +9 dBm.
#[derive(Copy, Clone, PartialEq, Eq, Structural, Debug)]
pub enum PowerLevel {
    /// Corresponding to -12dbm (`ESP_PWR_LVL_N12`).
    N12,
    /// Corresponding to -9dbm (`ESP_PWR_LVL_N9`).
    N9,
    /// Corresponding to -6dbm (`ESP_PWR_LVL_N6`).
    N6,
    /// Corresponding to -3dbm (`ESP_PWR_LVL_N3`).
    N3,
    /// Corresponding to 0dbm (`ESP_PWR_LVL_N0`).
    N0,
    /// Corresponding to +3dbm (`ESP_PWR_LVL_P3`).
    P3,
    /// Corresponding to +6dbm (`ESP_PWR_LVL_P6`).
    P6,
    /// Corresponding to +9dbm (`ESP_PWR_LVL_P9`).
    P9,
}

impl PowerLevel {
    /// The number that the stack uses for this level.
    pub open spec fn spec_code(self) -> u32 {
        match self {
            PowerLevel::N12 => 0,
            PowerLevel::N9 => 1,
            PowerLevel::N6 => 2,
            PowerLevel::N3 => 3,
            PowerLevel::N0 => 4,
            PowerLevel::P3 => 5,
            PowerLevel::P6 => 6,
            PowerLevel::P9 => 7,
        }
    }

    /// The level that the stack numbers `code`, if there is one.
    pub open spec fn spec_from_code(code: u32) -> Option<PowerLevel> {
        match code {
            0u32 => Some(PowerLevel::N12),
            1u32 => Some(PowerLevel::N9),
            2u32 => Some(PowerLevel::N6),
            3u32 => Some(PowerLevel::N3),
            4u32 => Some(PowerLevel::N0),
            5u32 => Some(PowerLevel::P3),
            6u32 => Some(PowerLevel::P6),
            7u32 => Some(PowerLevel::P9),
            _ => None,
        }
    }

    /// The number that the stack uses for this level.
    #[verifier::when_used_as_spec(spec_code)]
    pub fn code(self) -> (code: u32)
        ensures
            code == self.spec_code(),
            Self::spec_from_code(code) == Some(self),
    {
        match self {
            PowerLevel::N12 => 0,
            PowerLevel::N9 => 1,
            PowerLevel::N6 => 2,
            PowerLevel::N3 => 3,
            PowerLevel::N0 => 4,
            PowerLevel::P3 => 5,
            PowerLevel::P6 => 6,
            PowerLevel::P9 => 7,
        }
    }

    /// The level that the stack numbers `code`, or `None` where `code` is above
    /// 7.
    #[verifier::when_used_as_spec(spec_from_code)]
    pub fn from_code(code: u32) -> (value: Option<PowerLevel>)
        ensures
            value == Self::spec_from_code(code),
            value is Some <==> code <= 7,
            value matches Some(level) ==> level.spec_code() == code,
    {
        match code {
            0 => Some(PowerLevel::N12),
            1 => Some(PowerLevel::N9),
            2 => Some(PowerLevel::N6),
            3 => Some(PowerLevel::N3),
            4 => Some(PowerLevel::N0),
            5 => Some(PowerLevel::P3),
            6 => Some(PowerLevel::P6),
            7 => Some(PowerLevel::P9),
            _ => None,
        }
    }

    /// Every level is found again from its number.
    pub proof fn lemma_code_round_trip(self)
        ensures
            Self::spec_from_code(self.spec_code()) == Some(self),
            self.spec_code() <= 7,
    {
    }

    /// The numbers 0 to 7 each name one level, which has that number; no other
    /// number names one.
    pub proof fn lemma_from_code_round_trip(code: u32)
        ensures
            Self::spec_from_code(code) is Some <==> code <= 7,
            (match Self::spec_from_code(code) {
                Some(level) => level.spec_code() == code,
                None => forall|level: PowerLevel| level.spec_code() != code,
            }),
    {
    }

    /// No two levels share a number.
    pub proof fn lemma_code_injective(a: PowerLevel, b: PowerLevel)
        requires
            a.spec_code() == b.spec_code(),
        ensures
            a == b,
    {
    }

    /// The power of this level in dBm.
    pub open spec fn spec_to_dbm(self) -> int {
        match self {
            PowerLevel::N12 => -12,
            PowerLevel::N9 => -9,
            PowerLevel::N6 => -6,
            PowerLevel::N3 => -3,
            PowerLevel::N0 => 0,
            PowerLevel::P3 => 3,
            PowerLevel::P6 => 6,
            PowerLevel::P9 => 9,
        }
    }

    /// The power of this level in dBm. The levels are 3 dB apart and the
    /// lowest is -12 dBm.
    pub fn to_dbm(&self) -> (dbm: i8)
        ensures
            dbm == self.spec_to_dbm(),
            dbm == 3 * self.spec_code() - 12,
    {
        match self {
            PowerLevel::N12 => -12,
            PowerLevel::N9 => -9,
            PowerLevel::N6 => -6,
            PowerLevel::N3 => -3,
            PowerLevel::N0 => 0,
            PowerLevel::P3 => 3,
            PowerLevel::P6 => 6,
            PowerLevel::P9 => 9,
        }
    }

    /// The dBm values rise by 3 with each level, starting at -12, and so stay
    /// between -12 and 9.
    pub proof fn lemma_to_dbm_by_code(self)
        ensures
            self.spec_to_dbm() == 3 * self.spec_code() - 12,
            -12 <= self.spec_to_dbm() <= 9,
    {
    }

    /// No two levels have the same power.
    pub proof fn lemma_to_dbm_injective(a: PowerLevel, b: PowerLevel)
        requires
            a.spec_to_dbm() == b.spec_to_dbm(),
        ensures
            a == b,
    {
    }

    /// A level with a higher number has more power.
    pub proof fn lemma_to_dbm_monotonic(a: PowerLevel, b: PowerLevel)
        ensures
            a.spec_code() < b.spec_code() <==> a.spec_to_dbm() < b.spec_to_dbm(),
    {
    }
}

/// The traffic that a transmit power level applies to.
///
/// The numbers are those of the controller's `esp_ble_power_type_t`.
#[derive(Copy, Clone, PartialEq, Eq, Structural, Debug)]
pub enum PowerType {
    /// For connection handle 0 (`ESP_BLE_PWR_TYPE_CONN_HDL0`).
    ConnHdl0,
    /// For connection handle 1 (`ESP_BLE_PWR_TYPE_CONN_HDL1`).
    ConnHdl1,
    /// For connection handle 2 (`ESP_BLE_PWR_TYPE_CONN_HDL2`).
    ConnHdl2,
    /// For connection handle 3 (`ESP_BLE_PWR_TYPE_CONN_HDL3`).
    ConnHdl3,
    /// For connection handle 4 (`ESP_BLE_PWR_TYPE_CONN_HDL4`).
    ConnHdl4,
    /// For connection handle 5 (`ESP_BLE_PWR_TYPE_CONN_HDL5`).
    ConnHdl5,
    /// For connection handle 6 (`ESP_BLE_PWR_TYPE_CONN_HDL6`).
    ConnHdl6,
    /// For connection handle 7 (`ESP_BLE_PWR_TYPE_CONN_HDL7`).
    ConnHdl7,
    /// For connection handle 8 (`ESP_BLE_PWR_TYPE_CONN_HDL8`).
    ConnHdl8,
    /// For advertising (`ESP_BLE_PWR_TYPE_ADV`).
    Advertising,
    /// For scan (`ESP_BLE_PWR_TYPE_SCAN`).
    Scan,
    /// For default, if not set other, it will use default value
    /// (`ESP_BLE_PWR_TYPE_DEFAULT`).
    Default,
}

impl PowerType {
    /// The number that the stack uses for this power type.
    pub open spec fn spec_code(self) -> u32 {
        match self {
            PowerType::ConnHdl0 => 0,
            PowerType::ConnHdl1 => 1,
            PowerType::ConnHdl2 => 2,
            PowerType::ConnHdl3 => 3,
            PowerType::ConnHdl4 => 4,
            PowerType::ConnHdl5 => 5,
            PowerType::ConnHdl6 => 6,
            PowerType::ConnHdl7 => 7,
            PowerType::ConnHdl8 => 8,
            PowerType::Advertising => 9,
            PowerType::Scan => 10,
            PowerType::Default => 11,
        }
    }

    /// The power type that the stack numbers `code`, if there is one.
    pub open spec fn spec_from_code(code: u32) -> Option<PowerType> {
        match code {
            0u32 => Some(PowerType::ConnHdl0),
            1u32 => Some(PowerType::ConnHdl1),
            2u32 => Some(PowerType::ConnHdl2),
            3u32 => Some(PowerType::ConnHdl3),
            4u32 => Some(PowerType::ConnHdl4),
            5u32 => Some(PowerType::ConnHdl5),
            6u32 => Some(PowerType::ConnHdl6),
            7u32 => Some(PowerType::ConnHdl7),
            8u32 => Some(PowerType::ConnHdl8),
            9u32 => Some(PowerType::Advertising),
            10u32 => Some(PowerType::Scan),
            11u32 => Some(PowerType::Default),
            _ => None,
        }
    }

    /// The number that the stack uses for this power type.
    #[verifier::when_used_as_spec(spec_code)]
    pub fn code(self) -> (code: u32)
        ensures
            code == self.spec_code(),
            Self::spec_from_code(code) == Some(self),
    {
        match self {
            PowerType::ConnHdl0 => 0,
            PowerType::ConnHdl1 => 1,
            PowerType::ConnHdl2 => 2,
            PowerType::ConnHdl3 => 3,
            PowerType::ConnHdl4 => 4,
            PowerType::ConnHdl5 => 5,
            PowerType::ConnHdl6 => 6,
            PowerType::ConnHdl7 => 7,
            PowerType::ConnHdl8 => 8,
            PowerType::Advertising => 9,
            PowerType::Scan => 10,
            PowerType::Default => 11,
        }
    }

    /// The power type that the stack numbers `code`, or `None` where `code` is
    /// above 11.
    #[verifier::when_used_as_spec(spec_from_code)]
    pub fn from_code(code: u32) -> (value: Option<PowerType>)
        ensures
            value == Self::spec_from_code(code),
            value is Some <==> code <= 11,
            value matches Some(power_type) ==> power_type.spec_code() == code,
    {
        match code {
            0 => Some(PowerType::ConnHdl0),
            1 => Some(PowerType::ConnHdl1),
            2 => Some(PowerType::ConnHdl2),
            3 => Some(PowerType::ConnHdl3),
            4 => Some(PowerType::ConnHdl4),
            5 => Some(PowerType::ConnHdl5),
            6 => Some(PowerType::ConnHdl6),
            7 => Some(PowerType::ConnHdl7),
            8 => Some(PowerType::ConnHdl8),
            9 => Some(PowerType::Advertising),
            10 => Some(PowerType::Scan),
            11 => Some(PowerType::Default),
            _ => None,
        }
    }

    /// Every power type is found again from its number.
    pub proof fn lemma_code_round_trip(self)
        ensures
            Self::spec_from_code(self.spec_code()) == Some(self),
            self.spec_code() <= 11,
    {
    }

    /// The numbers 0 to 11 each name one power type, which has that number; no
    /// other number names one.
    pub proof fn lemma_from_code_round_trip(code: u32)
        ensures
            Self::spec_from_code(code) is Some <==> code <= 11,
            (match Self::spec_from_code(code) {
                Some(power_type) => power_type.spec_code() == code,
                None => forall|power_type: PowerType| power_type.spec_code() != code,
            }),
    {
    }

    /// No two power types share a number.
    pub proof fn lemma_code_injective(a: PowerType, b: PowerType)
        requires
            a.spec_code() == b.spec_code(),
        ensures
            a == b,
    {
    }
}

} // verus!
