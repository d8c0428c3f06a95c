use amoca_climate_insurance::float64::{Float64, FRACTION_SPAN, INFINITY_BITS, SIGN_BIT};

fn number(x: f64) -> Float64 {
    Float64::from_bits(x.to_bits())
}

fn samples() -> Vec<f64> {
    vec![
        0.0,
        -0.0,
        5e-324,
        -5e-324,
        f64::MIN_POSITIVE,
        -f64::MIN_POSITIVE,
        2.2250738585072009e-308,
        0.1,
        -0.1,
        0.5,
        1.0,
        -1.0,
        1.0000000000000002,
        2.0,
        3.0,
        45.5,
        -45.5,
        89.99999999999999,
        90.0,
        90.00000000000001,
        -89.99999999999999,
        -90.0,
        -90.00000000000001,
        179.99999999999997,
        180.0,
        180.00000000000003,
        -180.0,
        -180.00000000000003,
        1e15,
        -1e15,
        9007199254740992.0,
        1e300,
        -1e300,
        f64::MAX,
        f64::MIN,
        f64::INFINITY,
        f64::NEG_INFINITY,
        f64::NAN,
        -f64::NAN,
        f64::from_bits(0x7ff0_0000_0000_0001),
        f64::from_bits(0xffff_ffff_ffff_ffff),
    ]
}

#[test]
fn bits_round_trip() {
    for x in samples() {
        assert_eq!(number(x).to_bits(), x.to_bits());
    }
    assert_eq!(Float64::from_bits(0x4056_8000_0000_0000).to_bits(), 90.0f64.to_bits());
}

#[test]
fn constants_are_the_ieee_patterns() {
    assert_eq!(SIGN_BIT, (-0.0f64).to_bits());
    assert_eq!(INFINITY_BITS, f64::INFINITY.to_bits());
    assert_eq!(FRACTION_SPAN, 1u64 << 52);
}

#[test]
fn le_agrees_with_native_comparison() {
    for a in samples() {
        for b in samples() {
            assert_eq!(number(a).le(&number(b)), a <= b, "{:?} <= {:?}", a, b);
        }
    }
}

#[test]
fn ge_agrees_with_native_comparison() {
    for a in samples() {
        for b in samples() {
            assert_eq!(number(a).ge(&number(b)), a >= b, "{:?} >= {:?}", a, b);
        }
    }
}

#[test]
fn classification_agrees_with_native() {
    for x in samples() {
        assert_eq!(number(x).is_nan(), x.is_nan(), "{:?}", x);
        assert_eq!(number(x).is_finite(), x.is_finite(), "{:?}", x);
        assert_eq!(number(x).is_sign_negative(), x.is_sign_negative(), "{:?}", x);
        assert_eq!(number(x).magnitude_bits(), x.abs().to_bits(), "{:?}", x);
    }
}

#[test]
fn zero_compares_equal_to_negative_zero() {
    let plus = number(0.0);
    let minus = number(-0.0);
    assert!(plus.le(&minus));
    assert!(minus.le(&plus));
    assert!(plus.ge(&minus));
    assert_ne!(plus.to_bits(), minus.to_bits());
}

#[test]
fn nan_compares_with_nothing() {
    let nan = number(f64::NAN);
    let one = number(1.0);
    assert!(!nan.le(&nan));
    assert!(!nan.ge(&nan));
    assert!(!nan.le(&one));
    assert!(!one.le(&nan));
    assert!(!nan.ge(&one));
    assert!(!one.ge(&nan));
}

#[test]
fn from_i32_agrees_with_native_conversion() {
    let mut n: i32 = -3000;
    while n <= 3000 {
        assert_eq!(Float64::from_i32(n).to_bits(), (n as f64).to_bits(), "{}", n);
        n += 1;
    }
    for n in [
        i32::MIN,
        i32::MIN + 1,
        -1_000_000_007,
        -65_537,
        -65_536,
        65_535,
        65_536,
        16_777_217,
        1_073_741_823,
        1_073_741_824,
        1_073_741_825,
        i32::MAX - 1,
        i32::MAX,
    ] {
        assert_eq!(Float64::from_i32(n).to_bits(), (n as f64).to_bits(), "{}", n);
    }
}

#[test]
fn from_i32_of_small_numbers_has_known_bits() {
    assert_eq!(Float64::from_i32(0).to_bits(), 0);
    assert_eq!(Float64::from_i32(1).to_bits(), 0x3ff0_0000_0000_0000);
    assert_eq!(Float64::from_i32(-1).to_bits(), 0xbff0_0000_0000_0000);
    assert_eq!(Float64::from_i32(90).to_bits(), 0x4056_8000_0000_0000);
    assert_eq!(Float64::from_i32(-180).to_bits(), 0xc066_8000_0000_0000);
    assert_eq!(Float64::from_i32(100).to_bits(), 0x4059_0000_0000_0000);
}

#[test]
fn from_i32_orders_as_the_integers_do() {
    let values = [i32::MIN, -181, -180, -90, -1, 0, 1, 89, 90, 91, 180, i32::MAX];
    for a in values {
        for b in values {
            assert_eq!(Float64::from_i32(a).le(&Float64::from_i32(b)), a <= b);
            assert_eq!(Float64::from_i32(a).ge(&Float64::from_i32(b)), a >= b);
        }
    }
}

fn next_pattern(state: &mut u64) -> u64 {
    *state ^= *state << 13;
    *state ^= *state >> 7;
    *state ^= *state << 17;
    *state
}

#[test]
fn le_agrees_with_native_comparison_on_many_patterns() {
    let mut state: u64 = 0x9e37_79b9_7f4a_7c15;
    for _ in 0..200_000 {
        let a = next_pattern(&mut state);
        let b = next_pattern(&mut state);
        let expected = f64::from_bits(a) <= f64::from_bits(b);
        assert_eq!(Float64::from_bits(a).le(&Float64::from_bits(b)), expected, "{:x} {:x}", a, b);
        // Neighbouring patterns, where the order is decided by the lowest bits.
        let c = a.wrapping_add(1);
        let expected = f64::from_bits(a) <= f64::from_bits(c);
        assert_eq!(Float64::from_bits(a).le(&Float64::from_bits(c)), expected, "{:x} {:x}", a, c);
        let expected = f64::from_bits(c) <= f64::from_bits(a);
        assert_eq!(Float64::from_bits(c).le(&Float64::from_bits(a)), expected, "{:x} {:x}", c, a);
    }
}
