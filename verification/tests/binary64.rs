use xx_session_management::binary64::{Binary64, ONE_BITS};

fn truncate(value: f64) -> i32 {
    Binary64 {
        bits: value.to_bits(),
    }
    .truncate()
}

#[test]
fn truncation_rounds_towards_zero() {
    assert_eq!(truncate(0.0), 0);
    assert_eq!(truncate(-0.0), 0);
    assert_eq!(truncate(0.999), 0);
    assert_eq!(truncate(-0.999), 0);
    assert_eq!(truncate(1.0), 1);
    assert_eq!(truncate(1048.75), 1048);
    assert_eq!(truncate(-1048.75), -1048);
    assert_eq!(truncate(5e-324), 0);
}

#[test]
fn truncation_clamps() {
    assert_eq!(truncate(2147483647.0), i32::MAX);
    assert_eq!(truncate(2147483647.5), i32::MAX);
    assert_eq!(truncate(2147483648.0), i32::MAX);
    assert_eq!(truncate(-2147483647.5), -2147483647);
    assert_eq!(truncate(-2147483648.0), i32::MIN);
    assert_eq!(truncate(-2147483648.5), i32::MIN);
    assert_eq!(truncate(1e300), i32::MAX);
    assert_eq!(truncate(f64::INFINITY), i32::MAX);
    assert_eq!(truncate(f64::NEG_INFINITY), i32::MIN);
    assert_eq!(truncate(f64::NAN), 0);
}

#[test]
fn truncation_agrees_with_cast() {
    let mut bits: u64 = 0x0123_4567_89ab_cdef;
    for i in 0..200_000u64 {
        bits = bits.wrapping_mul(0x5851_f42d_4c95_7f2d).wrapping_add(0x1405_7b7e_f767_814f);
        // Half of the patterns get an exponent for which the result is not trivial.
        let pattern = if i % 2 == 0 {
            bits
        } else {
            (bits & 0x800f_ffff_ffff_ffff) | ((1015 + (bits >> 52) % 48) << 52)
        };
        let value = f64::from_bits(pattern);
        assert_eq!(truncate(value), value as i32, "{:#x}", pattern);
    }
}

#[test]
fn one_is_one() {
    assert_eq!(Binary64::one().bits, 1.0f64.to_bits());
    assert_eq!(ONE_BITS, 1.0f64.to_bits());
}

#[test]
fn equality_is_that_of_floats() {
    let values = [
        0.0,
        -0.0,
        1.0,
        -1.0,
        0.5,
        5e-324,
        f64::INFINITY,
        f64::NEG_INFINITY,
        f64::NAN,
        -f64::NAN,
    ];
    for a in values {
        for b in values {
            let number = |value: f64| Binary64 {
                bits: value.to_bits(),
            };
            assert_eq!(number(a) == number(b), a == b, "{} and {}", a, b);
        }
    }
}
