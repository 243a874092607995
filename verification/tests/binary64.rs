use simple_vbap::binary64::Binary64;
use simple_vbap::binary64::INFINITY_MAGNITUDE;
use simple_vbap::binary64::MAGNITUDE_MASK;
use simple_vbap::binary64::ONE_BITS;
use simple_vbap::binary64::SIGN_BIT;

fn number(x: f64) -> Binary64 {
    Binary64::from_bits(x.to_bits())
}

fn assorted_numbers() -> Vec<f64> {
    vec![
        0.0,
        -0.0,
        1.0,
        -1.0,
        25.0,
        -25.0,
        30.0,
        -30.0,
        29.999999999999996,
        -29.999999999999996,
        30.000000000000004,
        0.5,
        -0.5,
        1e-320,
        -1e-320,
        f64::MIN_POSITIVE,
        -f64::MIN_POSITIVE,
        f64::MAX,
        f64::MIN,
        f64::INFINITY,
        f64::NEG_INFINITY,
        f64::NAN,
        -f64::NAN,
        f64::from_bits(0x7FF0_0000_0000_0001),
        f64::from_bits(0xFFFF_FFFF_FFFF_FFFF),
        f64::EPSILON,
        1.0 + f64::EPSILON,
        1e300,
        -1e300,
    ]
}

#[test]
fn constants_are_the_patterns_they_name() {
    assert_eq!(ONE_BITS, 1.0f64.to_bits());
    assert_eq!(SIGN_BIT, (-0.0f64).to_bits());
    assert_eq!(INFINITY_MAGNITUDE, f64::INFINITY.to_bits());
    assert_eq!(MAGNITUDE_MASK, !SIGN_BIT);
    assert_eq!(Binary64::one().to_bits(), 0x3FF0_0000_0000_0000);
    assert_eq!(f64::from_bits(Binary64::one().to_bits()), 1.0);
}

#[test]
fn from_bits_and_to_bits_are_inverse() {
    for x in assorted_numbers() {
        assert_eq!(number(x).to_bits(), x.to_bits());
        assert_eq!(number(x).bits, x.to_bits());
    }
}

#[test]
fn is_nan_agrees_with_the_machine() {
    for x in assorted_numbers() {
        assert_eq!(number(x).is_nan(), x.is_nan(), "{:?}", x);
    }
    assert!(number(f64::NAN).is_nan());
    assert!(!number(f64::INFINITY).is_nan());
    assert!(!number(f64::NEG_INFINITY).is_nan());
}

#[test]
fn is_zero_agrees_with_the_machine() {
    for x in assorted_numbers() {
        assert_eq!(number(x).is_zero(), x == 0.0, "{:?}", x);
    }
    assert!(number(0.0).is_zero());
    assert!(number(-0.0).is_zero());
    assert!(!number(1e-320).is_zero());
    assert!(!number(f64::NAN).is_zero());
}

#[test]
fn negate_agrees_with_the_machine() {
    for x in assorted_numbers() {
        assert_eq!(number(x).negate().to_bits(), (-x).to_bits(), "{:?}", x);
        assert_eq!(number(x).negate().negate(), number(x));
    }
    assert_eq!(number(30.0).negate(), number(-30.0));
    assert_eq!(number(0.0).negate().to_bits(), 0x8000_0000_0000_0000);
}

#[test]
fn less_than_agrees_with_the_machine() {
    let numbers = assorted_numbers();
    for &a in &numbers {
        for &b in &numbers {
            assert_eq!(number(a).less_than(&number(b)), a < b, "{:?} < {:?}", a, b);
        }
    }
}

#[test]
fn less_than_on_chosen_numbers() {
    assert!(number(25.0).less_than(&number(30.0)));
    assert!(!number(30.0).less_than(&number(25.0)));
    assert!(!number(30.0).less_than(&number(30.0)));
    assert!(number(-30.0).less_than(&number(-25.0)));
    assert!(number(-25.0).less_than(&number(25.0)));
    assert!(!number(-0.0).less_than(&number(0.0)));
    assert!(!number(0.0).less_than(&number(-0.0)));
    assert!(number(-1e-320).less_than(&number(0.0)));
    assert!(number(-0.0).less_than(&number(1e-320)));
    assert!(number(f64::NEG_INFINITY).less_than(&number(f64::MIN)));
    assert!(number(f64::MAX).less_than(&number(f64::INFINITY)));
    assert!(!number(f64::NAN).less_than(&number(1.0)));
    assert!(!number(1.0).less_than(&number(f64::NAN)));
    assert!(!number(f64::NAN).less_than(&number(f64::NAN)));
}

#[test]
fn equality_is_of_patterns() {
    assert_ne!(number(0.0), number(-0.0));
    assert_eq!(number(f64::NAN), number(f64::NAN));
    assert_eq!(number(25.0), Binary64 { bits: 0x4039_0000_0000_0000 });
}

#[test]
fn order_agrees_with_the_machine_on_scattered_patterns() {
    let mut state: u64 = 0x9E37_79B9_7F4A_7C15;
    let mut patterns: Vec<u64> = Vec::new();
    for _ in 0..400 {
        state = state.wrapping_mul(6364136223846793005).wrapping_add(1442695040888963407);
        patterns.push(state);
        // neighbours of the special patterns turn up too
        patterns.push(state & 0x800F_FFFF_FFFF_FFFF);
        patterns.push(state | 0x7FF0_0000_0000_0000);
    }
    for &a in &patterns {
        for &b in &patterns {
            let (x, y) = (f64::from_bits(a), f64::from_bits(b));
            assert_eq!(Binary64::from_bits(a).less_than(&Binary64::from_bits(b)), x < y);
        }
        let x = f64::from_bits(a);
        assert_eq!(Binary64::from_bits(a).is_nan(), x.is_nan());
        assert_eq!(Binary64::from_bits(a).is_zero(), x == 0.0);
        assert_eq!(Binary64::from_bits(a).negate().to_bits(), (-x).to_bits());
    }
}
