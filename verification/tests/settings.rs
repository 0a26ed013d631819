//! Tests of the configuration field encodings.

use tmp1075::{AlertFunction, AlertPolarity, ConsecutiveFaults, ConversionRate, PowerMode};

#[test]
fn test_conversion_rate_codes_round_trip() {
    let variants = [
        ConversionRate::Rate27_5ms,
        ConversionRate::Rate55ms,
        ConversionRate::Rate110ms,
        ConversionRate::Rate220ms,
    ];
    for (i, v) in variants.iter().enumerate() {
        assert_eq!(v.code(), i as u16);
        assert_eq!(ConversionRate::from_code(i as u16), Some(*v));
    }
    assert_eq!(ConversionRate::from_code(4), None);
}

#[test]
fn test_consecutive_faults_codes_round_trip() {
    let variants = [
        ConsecutiveFaults::One,
        ConsecutiveFaults::Two,
        ConsecutiveFaults::Three,
        ConsecutiveFaults::Four,
    ];
    for (i, v) in variants.iter().enumerate() {
        assert_eq!(v.code(), i as u16);
        assert_eq!(ConsecutiveFaults::from_code(i as u16), Some(*v));
    }
    assert_eq!(ConsecutiveFaults::from_code(4), None);
}

#[test]
fn test_one_bit_field_codes_round_trip() {
    assert_eq!(AlertPolarity::ActiveLow.code(), 0);
    assert_eq!(AlertPolarity::ActiveHigh.code(), 1);
    assert_eq!(AlertPolarity::from_code(0), Some(AlertPolarity::ActiveLow));
    assert_eq!(AlertPolarity::from_code(1), Some(AlertPolarity::ActiveHigh));
    assert_eq!(AlertPolarity::from_code(2), None);

    assert_eq!(AlertFunction::ComparatorMode.code(), 0);
    assert_eq!(AlertFunction::InterruptMode.code(), 1);
    assert_eq!(AlertFunction::from_code(0), Some(AlertFunction::ComparatorMode));
    assert_eq!(AlertFunction::from_code(1), Some(AlertFunction::InterruptMode));
    assert_eq!(AlertFunction::from_code(2), None);

    assert_eq!(PowerMode::ContinuousConversion.code(), 0);
    assert_eq!(PowerMode::Shutdown.code(), 1);
    assert_eq!(PowerMode::from_code(0), Some(PowerMode::ContinuousConversion));
    assert_eq!(PowerMode::from_code(1), Some(PowerMode::Shutdown));
    assert_eq!(PowerMode::from_code(2), None);
}

#[test]
fn test_default_settings() {
    assert_eq!(ConversionRate::default(), ConversionRate::Rate27_5ms);
    assert_eq!(ConsecutiveFaults::default(), ConsecutiveFaults::One);
    assert_eq!(AlertPolarity::default(), AlertPolarity::ActiveLow);
    assert_eq!(AlertFunction::default(), AlertFunction::ComparatorMode);
    assert_eq!(PowerMode::default(), PowerMode::ContinuousConversion);
}

#[test]
fn test_field_isolation_round_trip() {
    // Encoding a code into a register value, then decoding the field,
    // returns the code, and bits outside the mask are unchanged.
    let cases: [(u16, u16); 5] = [
        (0b0110_0000_0000_0000, 13), // conversion rate
        (0b0001_1000_0000_0000, 11), // consecutive faults
        (0b0000_0100_0000_0000, 10), // alert polarity
        (0b0000_0010_0000_0000, 9),  // alert function
        (0b0000_0001_0000_0000, 8),  // power mode
    ];
    for (mask, shift) in cases {
        let width = (mask >> shift).count_ones() as u16;
        for code in 0..(1u16 << width) {
            for value in [0x0000u16, 0xFFFF, 0xA5A5, 0x5A5A] {
                let w = (value & !mask) | (code << shift);
                assert_eq!((w & mask) >> shift, code);
                assert_eq!(w & !mask, value & !mask);
            }
        }
    }
}
