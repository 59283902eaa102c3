//! Typed names for the constants of the NimBLE Bluetooth Low Energy host stack
//! on the ESP32: I/O capabilities, transmit power, address types, advertising
//! and scan parameters, and the bit sets used for pairing and advertising.
//!
//! Every table in this crate is total and verified: each variant has exactly
//! one numeric code, each code names at most one variant, and the flag sets
//! obey the usual algebra of bit sets.

pub mod enums;
