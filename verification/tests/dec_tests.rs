use dik_dik::dec::{Dec, QUOTIENT_SCALE};

fn d(mantissa: u128, scale: u32) -> Dec {
    Dec { mantissa, scale }
}

#[test]
fn rescale_up_is_exact() {
    let x = d(1_234_567, 6); // 1.234567
    let up = x.rescale(8).unwrap();
    assert_eq!(up, d(123_456_700, 8));
}

#[test]
fn rescale_down_truncates() {
    let x = d(123_456_789, 8); // 1.23456789
    let down = x.rescale(6).unwrap();
    assert_eq!(down, d(1_234_567, 6)); // 1.234567, the trailing 89 dropped
}

#[test]
fn rescale_round_trip_up_then_down_is_identity() {
    let x = d(1_234_567, 6);
    let back = x.rescale(9).unwrap().rescale(6).unwrap();
    assert_eq!(back, x);
}

#[test]
fn rescale_round_trip_down_then_up_loses_only_low_digits() {
    let x = d(123_456_789, 8); // 1.23456789
    let back = x.rescale(6).unwrap().rescale(8).unwrap();
    assert_eq!(back, d(123_456_700, 8)); // truncated at the coarser scale
    assert!(back.mantissa <= x.mantissa);
    assert!(x.mantissa - back.mantissa < 100); // less than one unit at scale 6
}

#[test]
fn rescale_up_overflow_is_detected() {
    let x = d(u128::MAX / 10, 0);
    assert!(x.rescale(2).is_none());
}

#[test]
fn add_aligns_scales_exactly() {
    let a = d(500_000, 3); // 500.000
    let b = d(250_000_000, 6); // 250.000000
    assert_eq!(a.add(b).unwrap(), d(750_000_000, 6));
}

#[test]
fn add_overflow_is_detected() {
    let a = d(u128::MAX, 6);
    let b = d(1, 6);
    assert!(a.add(b).is_none());
}

#[test]
fn mul_is_exact_at_summed_scale() {
    let a = d(25, 1); // 2.5
    let b = d(4_000_000, 6); // 4.0
    assert_eq!(a.mul(b).unwrap(), d(100_000_000, 7)); // 10.0000000
}

#[test]
fn mul_overflow_is_detected() {
    let a = d(u128::MAX, 0);
    let b = d(2, 0);
    assert!(a.mul(b).is_none());
}

#[test]
fn div_terminating_quotient_is_exact() {
    // 1000.000000 / 10000.000000 == 0.1
    let a = d(1_000_000_000, 6);
    let b = d(10_000_000_000, 6);
    let q = a.div(b).unwrap();
    assert_eq!(q.scale, QUOTIENT_SCALE);
    assert_eq!(q, d(100_000_000_000_000_000, 18));
}

#[test]
fn div_truncates_at_quotient_scale() {
    // 1 / 3 at 18 fractional digits
    let a = d(1, 0);
    let b = d(3, 0);
    assert_eq!(a.div(b).unwrap(), d(333_333_333_333_333_333, 18));
}

#[test]
fn div_equal_values_is_one() {
    let a = d(1_000_000_000, 6);
    let q = a.div(a).unwrap();
    assert_eq!(q, d(1_000_000_000_000_000_000, 18));
}

#[test]
fn div_handles_divisor_scale_above_quotient_scale() {
    // 1.0 / 0.5 where the divisor carries 24 fractional digits
    let a = d(1, 0);
    let b = d(500_000_000_000_000_000_000_000, 24);
    assert_eq!(a.div(b).unwrap(), d(2_000_000_000_000_000_000, 18));
}

#[test]
fn zero_is_zero_at_any_scale() {
    assert!(Dec::zero(6).is_zero());
    assert!(d(0, 18).is_zero());
    assert!(!d(1, 18).is_zero());
}
