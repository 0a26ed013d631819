//! Tests of the pure temperature transcoding functions.

use tmp1075::{convert_temperature_msb, convert_temperature_q4};

#[test]
fn test_msb_temperature_conversion() {
    for t in i8::MIN as i16..i8::MAX as i16 {
        let raw = (t << 8) as u16;
        assert_eq!(convert_temperature_msb(raw), t as i8);
    }
}

#[test]
fn test_float_temperature_conversion() {
    for t in i8::MIN as i16 + 1..i8::MAX as i16 {
        let raw = (t << 8) as u16;
        let celsius: f32 = convert_temperature_q4(raw) as f32 * 0.0625;
        assert_eq!(celsius, t as f32);
    }
}

#[test]
fn test_q4_whole_degree_exactness() {
    for t in i8::MIN as i16..=i8::MAX as i16 {
        let raw = ((t as u16) & 0xFF) << 8;
        assert_eq!(convert_temperature_q4(raw), 16 * t);
    }
}

#[test]
fn test_negative_value_sign_extension() {
    // Binary field 0xF80 (bit 11 set) is -128 sixteenths, i.e. -8.0
    // degrees Celsius, not a large positive number.
    let q4 = convert_temperature_q4(0xF800);
    assert_eq!(q4, -128);
    assert_eq!(q4 as f32 * 0.0625, -8.0f32);
}

#[test]
fn test_q4_fractional_values() {
    // 0x4B04 -> field 0x4B0 plus one LSB: 75.0625 degrees.
    assert_eq!(convert_temperature_q4(0x4B00), 1200);
    assert_eq!(convert_temperature_q4(0x4B10), 1201);
    assert_eq!(convert_temperature_q4(0x4B10) as f32 * 0.0625, 75.0625f32);
    // -0.5 degrees: field 0xFF8.
    assert_eq!(convert_temperature_q4(0xFF80), -8);
    assert_eq!(convert_temperature_q4(0xFF80) as f32 * 0.0625, -0.5f32);
}

#[test]
fn test_msb_floors_negative_temperatures() {
    // -0.5 degrees reads back as -1 through the coarse top-byte view:
    // the fractional bits are discarded, flooring toward negative
    // infinity.
    assert_eq!(convert_temperature_msb(0xFF80), -1);
    // +0.5 degrees reads back as 0.
    assert_eq!(convert_temperature_msb(0x0080), 0);
    // Extremes of the raw range.
    assert_eq!(convert_temperature_msb(0x0000), 0);
    assert_eq!(convert_temperature_msb(0xFFFF), -1);
    assert_eq!(convert_temperature_msb(0x7FFF), 127);
    assert_eq!(convert_temperature_msb(0x8000), -128);
}
