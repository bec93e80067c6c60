use gpu_snippets::image::max_mip_levels_2d;
use gpu_snippets::scalar::Rational;

/// The scalar denotes exactly the rational `num / den`.
fn is_value(r: &Rational, num: i128, den: i128) -> bool {
    r.num * den == num * r.den
}

#[test]
fn mip_levels_of_square_power_of_two() {
    assert_eq!(max_mip_levels_2d(256, 256), 9);
}

#[test]
fn mip_levels_of_odd_extents() {
    assert_eq!(max_mip_levels_2d(300, 200), 9);
}

#[test]
fn mip_levels_of_single_pixel() {
    assert_eq!(max_mip_levels_2d(1, 1), 1);
}

#[test]
fn mip_levels_edge_extents() {
    assert_eq!(max_mip_levels_2d(0, 0), 1);
    assert_eq!(max_mip_levels_2d(2, 1), 2);
    assert_eq!(max_mip_levels_2d(1, 2), 2);
    assert_eq!(max_mip_levels_2d(3, 5), 3);
    assert_eq!(max_mip_levels_2d(255, 1), 8);
    assert_eq!(max_mip_levels_2d(1, 256), 9);
    assert_eq!(max_mip_levels_2d(u32::MAX, 1), 32);
}

#[test]
fn saturate_clamps_to_unit_interval() {
    let low = Rational { num: -3, den: 7 };
    assert!(is_value(&low.saturate(), 0, 1));
    let high = Rational { num: 9, den: 4 };
    assert!(is_value(&high.saturate(), 1, 1));
    let inside = Rational { num: 3, den: 4 };
    let s = inside.saturate();
    assert_eq!((s.num, s.den), (3, 4));
}

#[test]
fn clamp_tests_lower_bound_first() {
    let lo = Rational::from_int(-1);
    let hi = Rational::from_int(1);
    let v = Rational { num: -8, den: 2 };
    assert!(is_value(&v.clamp(&lo, &hi), -1, 1));
    let w = Rational { num: 8, den: 2 };
    assert!(is_value(&w.clamp(&lo, &hi), 1, 1));
    let kept = Rational { num: 1, den: 2 };
    assert!(is_value(&kept.clamp(&lo, &hi), 1, 2));
    // When the bounds cross, the lower-bound test wins.
    let crossed = Rational::from_int(0);
    assert!(is_value(&crossed.clamp(&hi, &lo), 1, 1));
    let below = Rational::from_int(-5);
    assert!(is_value(&below.clamp(&hi, &lo), 1, 1));
}

#[test]
fn absolute_value_keeps_denominator() {
    let neg = Rational { num: -5, den: 3 };
    let a = neg.abs();
    assert_eq!((a.num, a.den), (5, 3));
    let pos = Rational { num: 5, den: 3 };
    let b = pos.abs();
    assert_eq!((b.num, b.den), (5, 3));
}

#[test]
fn order_comparisons_cross_multiply() {
    let third = Rational { num: 1, den: 3 };
    let half = Rational { num: 2, den: 4 };
    assert!(third.lt(&half));
    assert!(third.le(&half));
    assert!(!half.lt(&third));
    assert!(half.le(&Rational { num: 1, den: 2 }));
    assert!(half.same_value(&Rational { num: 1, den: 2 }));
    assert!(!half.same_value(&third));
}
