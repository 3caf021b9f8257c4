use inspector::scalar::clamp_milli;
use inspector::scalar::format_one_decimal;
use inspector::scalar::format_vec3;
use inspector::Vec3Milli;

#[test]
fn one_decimal_exact_tenths() {
    assert_eq!(format_one_decimal(1000), "1.0");
    assert_eq!(format_one_decimal(2000), "2.0");
    assert_eq!(format_one_decimal(3000), "3.0");
    assert_eq!(format_one_decimal(100), "0.1");
    assert_eq!(format_one_decimal(0), "0.0");
}

#[test]
fn one_decimal_rounds_to_nearest_tenth() {
    assert_eq!(format_one_decimal(1234), "1.2");
    assert_eq!(format_one_decimal(1280), "1.3");
    assert_eq!(format_one_decimal(949), "0.9");
    assert_eq!(format_one_decimal(951), "1.0");
}

#[test]
fn one_decimal_ties_away_from_zero() {
    assert_eq!(format_one_decimal(1250), "1.3");
    assert_eq!(format_one_decimal(-1250), "-1.3");
    assert_eq!(format_one_decimal(50), "0.1");
    assert_eq!(format_one_decimal(-50), "-0.1");
}

#[test]
fn one_decimal_negative_values() {
    assert_eq!(format_one_decimal(-1000), "-1.0");
    assert_eq!(format_one_decimal(-100), "-0.1");
    assert_eq!(format_one_decimal(-49), "0.0");
    assert_eq!(format_one_decimal(-12345), "-12.3");
}

#[test]
fn one_decimal_large_values() {
    assert_eq!(format_one_decimal(1_000_000_000), "1000000.0");
    assert_eq!(format_one_decimal(123_456_789), "123456.8");
    assert_eq!(format_one_decimal(i64::MAX), "9223372036854775.8");
    assert_eq!(format_one_decimal(i64::MIN + 1), "-9223372036854775.8");
}

#[test]
fn vec3_formats_each_component() {
    let f = format_vec3(&Vec3Milli { x: 1000, y: 2000, z: 3000 });
    assert_eq!(f.x, "1.0");
    assert_eq!(f.y, "2.0");
    assert_eq!(f.z, "3.0");
}

#[test]
fn clamp_respects_both_bounds() {
    assert_eq!(clamp_milli(-5, 0, 10), 0);
    assert_eq!(clamp_milli(15, 0, 10), 10);
    assert_eq!(clamp_milli(7, 0, 10), 7);
    assert_eq!(clamp_milli(0, 0, 10), 0);
    assert_eq!(clamp_milli(10, 0, 10), 10);
}
