use lorenz_attractor::binary64::{beyond_million, finite, MILLION, ONE, ZERO};

fn next_up(x: f64) -> f64 {
    f64::from_bits(x.to_bits() + 1)
}

fn next_down(x: f64) -> f64 {
    f64::from_bits(x.to_bits() - 1)
}

#[test]
fn constants_are_the_encodings_they_name() {
    assert_eq!(ZERO, 0.0f64.to_bits());
    assert_eq!(ONE, 1.0f64.to_bits());
    assert_eq!(MILLION, 1e6f64.to_bits());
}

#[test]
fn finite_accepts_ordinary_numbers() {
    for x in [0.0, -0.0, 1.0, -1.0, 1e6, -1e6, 1e300, -1e300, f64::MAX, f64::MIN, f64::MIN_POSITIVE, 5e-324] {
        assert!(finite(x.to_bits()), "{x} is finite");
    }
}

#[test]
fn finite_refuses_infinities_and_nan() {
    assert!(!finite(f64::INFINITY.to_bits()));
    assert!(!finite(f64::NEG_INFINITY.to_bits()));
    assert!(!finite(f64::NAN.to_bits()));
    assert!(!finite((-f64::NAN).to_bits()));
    assert!(!finite(0x7FF0_0000_0000_0001));
    assert!(!finite(0xFFFF_FFFF_FFFF_FFFF));
}

#[test]
fn one_million_itself_is_not_beyond() {
    assert!(!beyond_million(1e6f64.to_bits()));
    assert!(!beyond_million((-1e6f64).to_bits()));
}

#[test]
fn the_neighbours_of_one_million_fall_on_either_side() {
    assert!(beyond_million(next_up(1e6).to_bits()));
    assert!(beyond_million((-next_up(1e6)).to_bits()));
    assert!(!beyond_million(next_down(1e6).to_bits()));
    assert!(!beyond_million((-next_down(1e6)).to_bits()));
}

#[test]
fn small_numbers_are_not_beyond_one_million() {
    for x in [0.0, -0.0, 5e-324, f64::MIN_POSITIVE, 1.0, -1.0, 55.0, 999_999.999, -999_999.999, 524_288.0, 1_048_575.0 / 2.0] {
        assert!(!beyond_million(x.to_bits()), "{x}");
    }
}

#[test]
fn large_numbers_are_beyond_one_million() {
    for x in [1_000_000.001, -1_000_000.001, 1_048_576.0, 1e7, -1e7, 1e300, f64::MAX, f64::MIN] {
        assert!(beyond_million(x.to_bits()), "{x}");
    }
}

#[test]
fn infinities_and_nan_count_as_beyond() {
    assert!(beyond_million(f64::INFINITY.to_bits()));
    assert!(beyond_million(f64::NEG_INFINITY.to_bits()));
    assert!(beyond_million(f64::NAN.to_bits()));
}

#[test]
fn beyond_million_agrees_with_the_comparison_of_numbers() {
    // One encoding from every binade, and a sweep across the binade of one
    // million.
    let mut exponent: u64 = 0;
    while exponent < 0x7FF {
        for fraction in [0u64, 1, 0x8_0000_0000_0000, 0xE_8480_0000_0000, 0xF_FFFF_FFFF_FFFF] {
            for sign in [0u64, 1] {
                let bits = (sign << 63) | (exponent << 52) | fraction;
                let x = f64::from_bits(bits);
                assert_eq!(beyond_million(bits), x.abs() > 1e6, "{x}");
                assert_eq!(finite(bits), x.is_finite(), "{x}");
            }
        }
        exponent += 1;
    }
    let mut x = 999_990.0f64;
    while x < 1_000_010.0 {
        assert_eq!(beyond_million(x.to_bits()), x.abs() > 1e6, "{x}");
        x += 0.125;
    }
}
