//! Typed values of the configuration register's bit fields.
//!
//! Each setting is a closed enumeration whose variants carry a fixed
//! small-integer code matching the hardware's bit pattern for that field.
//! `code` encodes a variant to its code; `from_code` decodes a code back
//! to the variant, returning `None` for codes outside the known set.

use vstd::prelude::*;

verus! {

/// Conversion rate setting of the temperature ADC.
#[derive(Debug, Clone, Copy, Default, PartialEq, Eq, Structural)]
pub enum ConversionRate {
    #[default]
    /// 27.5ms conversion rate
    Rate27_5ms,
    /// 55ms conversion rate
    Rate55ms,
    /// 110ms conversion rate
    Rate110ms,
    /// 220ms conversion rate (250ms on TMP1075N)
    Rate220ms,
}

impl ConversionRate {
    /// The two-bit hardware code of the setting.
    pub open spec fn code_spec(self) -> u16 {
        match self {
            ConversionRate::Rate27_5ms => 0b00,
            ConversionRate::Rate55ms => 0b01,
            ConversionRate::Rate110ms => 0b10,
            ConversionRate::Rate220ms => 0b11,
        }
    }

    /// The setting a two-bit hardware code stands for; `None` outside 0..=3.
    pub open spec fn from_code_spec(code: u16) -> Option<ConversionRate> {
        match code {
            0b00 => Some(ConversionRate::Rate27_5ms),
            0b01 => Some(ConversionRate::Rate55ms),
            0b10 => Some(ConversionRate::Rate110ms),
            0b11 => Some(ConversionRate::Rate220ms),
            _ => None,
        }
    }

    /// Encodes the setting to its hardware code.
    pub fn code(self) -> (c: u16)
        ensures
            c == self.code_spec(),
            c <= 0b11,
    {
        match self {
            ConversionRate::Rate27_5ms => 0b00,
            ConversionRate::Rate55ms => 0b01,
            ConversionRate::Rate110ms => 0b10,
            ConversionRate::Rate220ms => 0b11,
        }
    }

    /// Decodes a hardware code; every code outside the field's two bits
    /// is rejected.
    pub fn from_code(code: u16) -> (r: Option<ConversionRate>)
        ensures
            r == ConversionRate::from_code_spec(code),
            r is Some <==> code <= 0b11,
    {
        match code {
            0b00 => Some(ConversionRate::Rate27_5ms),
            0b01 => Some(ConversionRate::Rate55ms),
            0b10 => Some(ConversionRate::Rate110ms),
            0b11 => Some(ConversionRate::Rate220ms),
            _ => None,
        }
    }
}

/// Encoding a conversion rate and decoding the code again returns the
/// same setting.
pub proof fn lemma_conversion_rate_code_round_trip(rate: ConversionRate)
    ensures
        ConversionRate::from_code_spec(rate.code_spec()) == Some(rate),
{
}

/// Consecutive fault measurements required to trigger the alert function.
#[derive(Debug, Clone, Copy, Default, PartialEq, Eq, Structural)]
pub enum ConsecutiveFaults {
    #[default]
    /// 1 Fault
    One,
    /// 2 Faults
    Two,
    /// 3 Faults (4 on TMP1075N)
    Three,
    /// 4 Faults (6 on TMP1075N)
    Four,
}

impl ConsecutiveFaults {
    /// The two-bit hardware code of the setting.
    pub open spec fn code_spec(self) -> u16 {
        match self {
            ConsecutiveFaults::One => 0b00,
            ConsecutiveFaults::Two => 0b01,
            ConsecutiveFaults::Three => 0b10,
            ConsecutiveFaults::Four => 0b11,
        }
    }

    /// The setting a two-bit hardware code stands for; `None` outside 0..=3.
    pub open spec fn from_code_spec(code: u16) -> Option<ConsecutiveFaults> {
        match code {
            0b00 => Some(ConsecutiveFaults::One),
            0b01 => Some(ConsecutiveFaults::Two),
            0b10 => Some(ConsecutiveFaults::Three),
            0b11 => Some(ConsecutiveFaults::Four),
            _ => None,
        }
    }

    /// Encodes the setting to its hardware code.
    pub fn code(self) -> (c: u16)
        ensures
            c == self.code_spec(),
            c <= 0b11,
    {
        match self {
            ConsecutiveFaults::One => 0b00,
            ConsecutiveFaults::Two => 0b01,
            ConsecutiveFaults::Three => 0b10,
            ConsecutiveFaults::Four => 0b11,
        }
    }

    /// Decodes a hardware code; every code outside the field's two bits
    /// is rejected.
    pub fn from_code(code: u16) -> (r: Option<ConsecutiveFaults>)
        ensures
            r == ConsecutiveFaults::from_code_spec(code),
            r is Some <==> code <= 0b11,
    {
        match code {
            0b00 => Some(ConsecutiveFaults::One),
            0b01 => Some(ConsecutiveFaults::Two),
            0b10 => Some(ConsecutiveFaults::Three),
            0b11 => Some(ConsecutiveFaults::Four),
            _ => None,
        }
    }
}

/// Encoding a fault count and decoding the code again returns the same
/// setting.
pub proof fn lemma_consecutive_faults_code_round_trip(faults: ConsecutiveFaults)
    ensures
        ConsecutiveFaults::from_code_spec(faults.code_spec()) == Some(faults),
{
}

/// Polarity of the ALERT pin.
#[derive(Debug, Clone, Copy, Default, PartialEq, Eq, Structural)]
pub enum AlertPolarity {
    #[default]
    /// ALERT pin is active low
    ActiveLow,
    /// ALERT pin is active high
    ActiveHigh,
}

impl AlertPolarity {
    /// The one-bit hardware code of the setting.
    pub open spec fn code_spec(self) -> u16 {
        match self {
            AlertPolarity::ActiveLow => 0,
            AlertPolarity::ActiveHigh => 1,
        }
    }

    /// The setting a one-bit hardware code stands for; `None` outside 0..=1.
    pub open spec fn from_code_spec(code: u16) -> Option<AlertPolarity> {
        match code {
            0 => Some(AlertPolarity::ActiveLow),
            1 => Some(AlertPolarity::ActiveHigh),
            _ => None,
        }
    }

    /// Encodes the setting to its hardware code.
    pub fn code(self) -> (c: u16)
        ensures
            c == self.code_spec(),
            c <= 1,
    {
        match self {
            AlertPolarity::ActiveLow => 0,
            AlertPolarity::ActiveHigh => 1,
        }
    }

    /// Decodes a hardware code; every code outside the field's single bit
    /// is rejected.
    pub fn from_code(code: u16) -> (r: Option<AlertPolarity>)
        ensures
            r == AlertPolarity::from_code_spec(code),
            r is Some <==> code <= 1,
    {
        match code {
            0 => Some(AlertPolarity::ActiveLow),
            1 => Some(AlertPolarity::ActiveHigh),
            _ => None,
        }
    }
}

/// Encoding a polarity and decoding the code again returns the same
/// setting.
pub proof fn lemma_alert_polarity_code_round_trip(polarity: AlertPolarity)
    ensures
        AlertPolarity::from_code_spec(polarity.code_spec()) == Some(polarity),
{
}

/// Function of the ALERT pin.
#[derive(Debug, Clone, Copy, Default, PartialEq, Eq, Structural)]
pub enum AlertFunction {
    #[default]
    /// ALERT pin functions in comparator mode
    ComparatorMode,
    /// ALERT pin functions in interrupt mode
    InterruptMode,
}

impl AlertFunction {
    /// The one-bit hardware code of the setting.
    pub open spec fn code_spec(self) -> u16 {
        match self {
            AlertFunction::ComparatorMode => 0,
            AlertFunction::InterruptMode => 1,
        }
    }

    /// The setting a one-bit hardware code stands for; `None` outside 0..=1.
    pub open spec fn from_code_spec(code: u16) -> Option<AlertFunction> {
        match code {
            0 => Some(AlertFunction::ComparatorMode),
            1 => Some(AlertFunction::InterruptMode),
            _ => None,
        }
    }

    /// Encodes the setting to its hardware code.
    pub fn code(self) -> (c: u16)
        ensures
            c == self.code_spec(),
            c <= 1,
    {
        match self {
            AlertFunction::ComparatorMode => 0,
            AlertFunction::InterruptMode => 1,
        }
    }

    /// Decodes a hardware code; every code outside the field's single bit
    /// is rejected.
    pub fn from_code(code: u16) -> (r: Option<AlertFunction>)
        ensures
            r == AlertFunction::from_code_spec(code),
            r is Some <==> code <= 1,
    {
        match code {
            0 => Some(AlertFunction::ComparatorMode),
            1 => Some(AlertFunction::InterruptMode),
            _ => None,
        }
    }
}

/// Encoding an alert function and decoding the code again returns the
/// same setting.
pub proof fn lemma_alert_function_code_round_trip(function: AlertFunction)
    ensures
        AlertFunction::from_code_spec(function.code_spec()) == Some(function),
{
}

/// Power mode of the device.
#[derive(Debug, Clone, Copy, Default, PartialEq, Eq, Structural)]
pub enum PowerMode {
    #[default]
    /// Device is in continuous conversion mode
    ContinuousConversion,
    /// Device is in shutdown mode
    Shutdown,
}

impl PowerMode {
    /// The one-bit hardware code of the setting.
    pub open spec fn code_spec(self) -> u16 {
        match self {
            PowerMode::ContinuousConversion => 0,
            PowerMode::Shutdown => 1,
        }
    }

    /// The setting a one-bit hardware code stands for; `None` outside 0..=1.
    pub open spec fn from_code_spec(code: u16) -> Option<PowerMode> {
        match code {
            0 => Some(PowerMode::ContinuousConversion),
            1 => Some(PowerMode::Shutdown),
            _ => None,
        }
    }

    /// Encodes the setting to its hardware code.
    pub fn code(self) -> (c: u16)
        ensures
            c == self.code_spec(),
            c <= 1,
    {
        match self {
            PowerMode::ContinuousConversion => 0,
            PowerMode::Shutdown => 1,
        }
    }

    /// Decodes a hardware code; every code outside the field's single bit
    /// is rejected.
    pub fn from_code(code: u16) -> (r: Option<PowerMode>)
        ensures
            r == PowerMode::from_code_spec(code),
            r is Some <==> code <= 1,
    {
        match code {
            0 => Some(PowerMode::ContinuousConversion),
            1 => Some(PowerMode::Shutdown),
            _ => None,
        }
    }
}

/// Encoding a power mode and decoding the code again returns the same
/// setting.
pub proof fn lemma_power_mode_code_round_trip(mode: PowerMode)
    ensures
        PowerMode::from_code_spec(mode.code_spec()) == Some(mode),
{
}

} // verus!
