//! Register map of the TMP1075: register addresses and the bit-field
//! masks and shifts within the configuration register.
//!
//! This module is pure: addresses, masks and shifts are fixed by the
//! hardware and never change at runtime.

use vstd::prelude::*;

verus! {

/// The addressable registers of the device.
#[allow(non_camel_case_types)]
#[derive(Debug, Clone, Copy, PartialEq, Eq, Structural)]
pub enum Register {
    /// Temperature result register (read-only, 16 bit).
    TEMP,
    /// Configuration register (read/write, 16 bit, bit-packed fields).
    CFGR,
    /// Low limit register (16 bit, top 12 bits signed Q4).
    LLIM,
    /// High limit register (16 bit, top 12 bits signed Q4).
    HLIM,
    /// Device ID register (read-only, 16 bit).
    DIEID,
}

impl Register {
    /// The one-byte bus address of the register.
    pub open spec fn addr_spec(self) -> u8 {
        match self {
            Register::TEMP => 0x00,
            Register::CFGR => 0x01,
            Register::LLIM => 0x02,
            Register::HLIM => 0x03,
            Register::DIEID => 0x0F,
        }
    }

    /// Returns the one-byte bus address of the register.
    pub fn addr(self) -> (a: u8)
        ensures
            a == self.addr_spec(),
    {
        match self {
            Register::TEMP => 0x00,
            Register::CFGR => 0x01,
            Register::LLIM => 0x02,
            Register::HLIM => 0x03,
            Register::DIEID => 0x0F,
        }
    }
}

/// No two registers share a bus address.
pub proof fn lemma_register_addresses_distinct(r1: Register, r2: Register)
    ensures
        r1.addr_spec() == r2.addr_spec() ==> r1 == r2,
{
}

// ------------------- Register Masks ------------------- //
// ---------- CFGR ---------- //

/// One-shot conversion trigger (bit 15).
pub const ONE_SHOT_MASK: u16 = 0b1000_0000_0000_0000;
/// Conversion rate field (bits 14-13).
pub const CONVERSION_RATE_MASK: u16 = 0b0110_0000_0000_0000;
/// Shift of the conversion rate field.
pub const CONVERSION_RATE_SHIFT: u16 = 13;
/// Consecutive fault count field (bits 12-11).
pub const CONSECUTIVE_FAULT_MASK: u16 = 0b0001_1000_0000_0000;
/// Shift of the consecutive fault count field.
pub const CONSECUTIVE_FAULT_SHIFT: u16 = 11;
/// Alert pin polarity (bit 10).
pub const ALERT_POLARITY_MASK: u16 = 0b0000_0100_0000_0000;
/// Shift of the alert polarity field.
pub const ALERT_POLARITY_SHIFT: u16 = 10;
/// Alert pin function (bit 9).
pub const ALERT_FUNCTION_MASK: u16 = 0b0000_0010_0000_0000;
/// Shift of the alert function field.
pub const ALERT_FUNCTION_SHIFT: u16 = 9;
/// Shutdown / continuous conversion mode (bit 8).
pub const POWER_MODE_MASK: u16 = 0b0000_0001_0000_0000;
/// Shift of the power mode field.
pub const POWER_MODE_SHIFT: u16 = 8;

// ---------- LLIM ---------- //

/// Low limit value field (bits 15-4).
pub const LOW_LIMIT_MASK: u16 = 0b1111_1111_1111_0000;
/// Shift of the low limit value field.
pub const LOW_LIMIT_SHIFT: u16 = 4;

// ---------- HLIM ---------- //

/// High limit value field (bits 15-4).
pub const HIGH_LIMIT_MASK: u16 = 0b1111_1111_1111_0000;
/// Shift of the high limit value field.
pub const HIGH_LIMIT_SHIFT: u16 = 4;

/// The bit fields of the configuration register do not overlap: clearing
/// or setting one field can never touch a bit of another field.
pub proof fn lemma_cfgr_masks_disjoint()
    by (bit_vector)
    ensures
        ONE_SHOT_MASK & CONVERSION_RATE_MASK == 0,
        ONE_SHOT_MASK & CONSECUTIVE_FAULT_MASK == 0,
        ONE_SHOT_MASK & ALERT_POLARITY_MASK == 0,
        ONE_SHOT_MASK & ALERT_FUNCTION_MASK == 0,
        ONE_SHOT_MASK & POWER_MODE_MASK == 0,
        CONVERSION_RATE_MASK & CONSECUTIVE_FAULT_MASK == 0,
        CONVERSION_RATE_MASK & ALERT_POLARITY_MASK == 0,
        CONVERSION_RATE_MASK & ALERT_FUNCTION_MASK == 0,
        CONVERSION_RATE_MASK & POWER_MODE_MASK == 0,
        CONSECUTIVE_FAULT_MASK & ALERT_POLARITY_MASK == 0,
        CONSECUTIVE_FAULT_MASK & ALERT_FUNCTION_MASK == 0,
        CONSECUTIVE_FAULT_MASK & POWER_MODE_MASK == 0,
        ALERT_POLARITY_MASK & ALERT_FUNCTION_MASK == 0,
        ALERT_POLARITY_MASK & POWER_MODE_MASK == 0,
        ALERT_FUNCTION_MASK & POWER_MODE_MASK == 0,
{
}

} // verus!
