use scene_core::scalar::{is_nan, less_than, negate, HALF, INFINITY, ONE, SIGN_BIT, ZERO};

fn samples() -> Vec<f32> {
    vec![
        0.0,
        -0.0,
        1.0,
        -1.0,
        0.5,
        -0.5,
        100.0,
        -100.0,
        0.1,
        -0.1,
        1.5706964,
        -1.5706964,
        1.5707964,
        3.1415927,
        -3.1415927,
        1.0e-45,
        -1.0e-45,
        1.1754942e-38,
        -1.1754942e-38,
        1.1754944e-38,
        3.4028235e38,
        -3.4028235e38,
        16777216.0,
        16777218.0,
        f32::INFINITY,
        f32::NEG_INFINITY,
        f32::NAN,
        -f32::NAN,
        f32::from_bits(0x7f80_0001),
        f32::from_bits(0xffff_ffff),
    ]
}

#[test]
fn constants_are_the_patterns_of_their_values() {
    assert_eq!(ZERO, 0.0f32.to_bits());
    assert_eq!(HALF, 0.5f32.to_bits());
    assert_eq!(ONE, 1.0f32.to_bits());
    assert_eq!(INFINITY, f32::INFINITY.to_bits());
    assert_eq!(SIGN_BIT, (-0.0f32).to_bits());
}

#[test]
fn less_than_orders_as_the_values_do() {
    let values = samples();
    for a in values.iter() {
        for b in values.iter() {
            assert_eq!(
                less_than(a.to_bits(), b.to_bits()),
                a < b,
                "{:?} < {:?}",
                a,
                b
            );
        }
    }
}

#[test]
fn less_than_on_exact_patterns() {
    assert!(less_than(0x3f00_0000, 0x3f80_0000));
    assert!(!less_than(0x3f80_0000, 0x3f00_0000));
    assert!(less_than(0xbf80_0000, 0xbf00_0000));
    assert!(less_than(0xbf80_0000, 0x0000_0000));
    assert!(!less_than(0x8000_0000, 0x0000_0000));
    assert!(!less_than(0x0000_0000, 0x8000_0000));
    assert!(!less_than(0x3f80_0000, 0x3f80_0000));
    assert!(less_than(0xff80_0000, 0x7f80_0000));
    assert!(!less_than(0x7fc0_0000, 0x7f80_0000));
    assert!(!less_than(0x0000_0000, 0x7fc0_0000));
}

#[test]
fn less_than_agrees_with_a_sweep_of_patterns() {
    let mut a: u32 = 0;
    for _ in 0..4096 {
        let mut b: u32 = 0x0123_4567;
        for _ in 0..64 {
            let x = f32::from_bits(a);
            let y = f32::from_bits(b);
            assert_eq!(less_than(a, b), x < y);
            b = b.wrapping_mul(1664525).wrapping_add(1013904223);
        }
        a = a.wrapping_add(0x0010_0301);
    }
}

#[test]
fn negate_flips_the_sign_of_the_value() {
    for a in samples() {
        assert_eq!(negate(a.to_bits()), (-a).to_bits());
    }
    assert_eq!(negate(0x3f80_0000), 0xbf80_0000);
    assert_eq!(negate(0xbf80_0000), 0x3f80_0000);
    assert_eq!(negate(0), 0x8000_0000);
    assert_eq!(negate(0x8000_0000), 0);
}

#[test]
fn negate_twice_gives_the_pattern_back() {
    for a in samples() {
        assert_eq!(negate(negate(a.to_bits())), a.to_bits());
    }
}

#[test]
fn is_nan_tells_nan_from_the_rest() {
    for a in samples() {
        assert_eq!(is_nan(a.to_bits()), a.is_nan());
    }
    assert!(!is_nan(0x7f80_0000));
    assert!(is_nan(0x7f80_0001));
    assert!(!is_nan(0xff80_0000));
    assert!(is_nan(0xff80_0001));
}
