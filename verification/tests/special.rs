//! Tests pinning the special-value tables and the bit-pattern builders
//! against the values std computes, and the signaling-NaN helpers.

use wdg::float_bits::nan_f32_from_parts;
use wdg::float_bits::nan_f64_from_parts;
use wdg::float_bits::normal_f32_from_parts;
use wdg::float_bits::normal_f64_from_parts;
use wdg::float_bits::subnormal_f32_from_parts;
use wdg::float_bits::subnormal_f64_from_parts;
use wdg::is_signaling_nan_f32;
use wdg::is_signaling_nan_f64;
use wdg::special_values::f32_special_value;
use wdg::special_values::f64_special_value;

#[test]
fn f32_special_values_match_std() {
    let expected: [f32; 12] = [
        0.0,
        -0.0,
        f32::INFINITY,
        -f32::INFINITY,
        1.0,
        -1.0,
        f32::MIN,
        f32::MAX,
        f32::MIN_POSITIVE,
        -f32::MIN_POSITIVE,
        f32::EPSILON,
        -f32::EPSILON,
    ];
    for (k, want) in expected.iter().enumerate() {
        assert_eq!(f32_special_value(k as u8), want.to_bits(), "index {}", k);
    }
}

#[test]
fn f64_special_values_match_std() {
    let expected: [f64; 12] = [
        0.0,
        -0.0,
        f64::INFINITY,
        -f64::INFINITY,
        1.0,
        -1.0,
        f64::MIN,
        f64::MAX,
        f64::MIN_POSITIVE,
        -f64::MIN_POSITIVE,
        f64::EPSILON,
        -f64::EPSILON,
    ];
    for (k, want) in expected.iter().enumerate() {
        assert_eq!(f64_special_value(k as u8), want.to_bits(), "index {}", k);
    }
}

#[test]
fn f32_builders_match_std() {
    // 1.0 has sign 0, exponent 127, mantissa 0.
    assert_eq!(normal_f32_from_parts(0, 127, 0), 1.0f32.to_bits());
    // The largest finite value: maximal legal exponent, full mantissa.
    assert_eq!(
        normal_f32_from_parts(0, 0xfe, 0x007f_ffff),
        f32::MAX.to_bits()
    );
    // The smallest subnormal and a one-bit NaN payload.
    assert_eq!(subnormal_f32_from_parts(0, 1), 0x0000_0001);
    assert!(f32::from_bits(subnormal_f32_from_parts(1, 1)).is_subnormal());
    assert!(f32::from_bits(nan_f32_from_parts(1, 5)).is_nan());
    assert_eq!(nan_f32_from_parts(1, 5), 0xff80_0005);
}

#[test]
fn f64_builders_match_std() {
    // 1.0 has sign 0, exponent 1023, mantissa 0.
    assert_eq!(normal_f64_from_parts(0, 1023, 0), 1.0f64.to_bits());
    // The largest finite value: maximal legal exponent, full mantissa.
    assert_eq!(
        normal_f64_from_parts(0, 0x7fe, 0x000f_ffff_ffff_ffff),
        f64::MAX.to_bits()
    );
    // The smallest subnormal and a one-bit NaN payload.
    assert_eq!(subnormal_f64_from_parts(0, 1), 0x0000_0000_0000_0001);
    assert!(f64::from_bits(subnormal_f64_from_parts(1, 1)).is_subnormal());
    assert!(f64::from_bits(nan_f64_from_parts(1, 5)).is_nan());
    assert_eq!(nan_f64_from_parts(1, 5), 0xfff0_0000_0000_0005);
}

#[test]
fn signaling_nan_f32() {
    // std's NAN is a quiet NaN: the topmost mantissa bit is set.
    assert!(!is_signaling_nan_f32(f32::NAN.to_bits()));
    // Clearing it while keeping a payload gives a signaling NaN.
    assert!(is_signaling_nan_f32(0x7f80_0001));
    assert!(is_signaling_nan_f32(0xff80_0001));
    // Infinity and ordinary numbers are not NaNs at all.
    assert!(!is_signaling_nan_f32(f32::INFINITY.to_bits()));
    assert!(!is_signaling_nan_f32(1.0f32.to_bits()));
}

#[test]
fn signaling_nan_f64() {
    assert!(!is_signaling_nan_f64(f64::NAN.to_bits()));
    assert!(is_signaling_nan_f64(0x7ff0_0000_0000_0001));
    assert!(is_signaling_nan_f64(0xfff0_0000_0000_0001));
    assert!(!is_signaling_nan_f64(f64::INFINITY.to_bits()));
    assert!(!is_signaling_nan_f64(1.0f64.to_bits()));
}
