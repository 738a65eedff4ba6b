use duplex_audio::binary64::Binary64;
use duplex_audio::rate::{supports_rate, ValueRange};

fn bits(x: f64) -> Binary64 {
    Binary64 { bits: x.to_bits() }
}

/// Doubles around every place where a decision turns.
fn samples() -> Vec<f64> {
    let mut xs = vec![
        0.0,
        -0.0,
        f64::MIN_POSITIVE,
        5e-324,
        1e-300,
        2f64.powi(-54),
        2f64.powi(-54) * 1.0000000000000002,
        2f64.powi(-53),
        0.25,
        0.5,
        1.0 - f64::EPSILON / 2.0,
        1.0,
        1.0 + f64::EPSILON,
        1.5,
        2.0 - f64::EPSILON,
        2.0,
        8000.0,
        44099.0,
        44099.000000000007,
        44099.5,
        44100.0,
        44100.3,
        44100.99999999999,
        44101.0,
        48000.0,
        96000.0,
        4294967294.0,
        4294967294.5,
        4294967295.0,
        4294967295.5,
        4294967296.0,
        4294967297.0,
        9007199254740991.0,
        9007199254740992.0,
        1e18,
        1e300,
        f64::MAX,
        f64::INFINITY,
        f64::NAN,
    ];
    let negated: Vec<f64> = xs.iter().map(|x| -x).collect();
    xs.extend(negated);
    xs
}

fn wholes() -> Vec<u32> {
    vec![0, 1, 2, 3, 8000, 44099, 44100, 44101, 48000, u32::MAX - 1, u32::MAX]
}

#[test]
fn comparisons_agree_with_floating_point() {
    for x in samples() {
        for n in wholes() {
            assert_eq!(bits(x).at_most(n), n as f64 >= x, "{x} at most {n}");
            assert_eq!(bits(x).at_least(n), n as f64 <= x, "{x} at least {n}");
        }
    }
}

#[test]
fn distances_agree_with_floating_point() {
    for x in samples() {
        for n in wholes() {
            let d = (x - n as f64).abs();
            assert_eq!(bits(x).off_by_one(n), d >= 1.0, "{x} off {n}");
            assert_eq!(bits(x).within_one(n), d < 1.0, "{x} near {n}");
        }
    }
}

#[test]
fn rounding_agrees_with_floating_point() {
    for x in samples() {
        assert_eq!(bits(x).to_u32(), x as u32, "{x}");
    }
}

#[test]
fn doubles_of_many_sizes_agree_with_floating_point() {
    // A linear congruential walk over bit patterns, with exponents near those of sample rates.
    let mut state: u64 = 0x9E37_79B9_7F4A_7C15;
    for i in 0..20000u64 {
        state = state.wrapping_mul(6364136223846793005).wrapping_add(1442695040888963407);
        let exponent = 940 + (i % 140);
        let x = f64::from_bits((state & 0x800F_FFFF_FFFF_FFFF) | (exponent << 52));
        let n = (state >> 20) as u32 >> (i % 32);
        assert_eq!(bits(x).at_most(n), n as f64 >= x);
        assert_eq!(bits(x).at_least(n), n as f64 <= x);
        assert_eq!(bits(x).off_by_one(n), (x - n as f64).abs() >= 1.0);
        assert_eq!(bits(x).within_one(n), (x - n as f64).abs() < 1.0);
        assert_eq!(bits(x).to_u32(), x as u32);
        let m = x.abs() as u32;
        assert_eq!(bits(x).within_one(m), (x - m as f64).abs() < 1.0);
        assert_eq!(bits(x).at_least(m), m as f64 <= x);
    }
}

#[test]
fn exact_values() {
    assert_eq!(bits(44100.0).to_u32(), 44100);
    assert_eq!(bits(44100.9).to_u32(), 44100);
    assert_eq!(bits(-1.0).to_u32(), 0);
    assert_eq!(bits(1e10).to_u32(), u32::MAX);
    assert_eq!(bits(f64::NAN).to_u32(), 0);
    assert!(bits(44100.5).within_one(44100));
    assert!(bits(44101.0).off_by_one(44100));
}

#[test]
fn a_nan_is_neither_off_nor_near() {
    assert!(!bits(f64::NAN).off_by_one(48000));
    assert!(!bits(f64::NAN).within_one(48000));
    assert!(!bits(f64::NAN).at_most(48000));
    assert!(!bits(f64::NAN).at_least(48000));
}

#[test]
fn the_difference_is_rounded_before_it_is_compared() {
    // The exact distance is below one, but it rounds to one.
    assert!(bits(2f64.powi(-54)).off_by_one(1));
    assert!(bits(2f64.powi(-53)).within_one(1));
}

#[test]
fn ranges_hold_their_ends() {
    let r = ValueRange { minimum: bits(44100.0), maximum: bits(48000.0) };
    assert!(r.contains(44100));
    assert!(r.contains(48000));
    assert!(r.contains(45000));
    assert!(!r.contains(44099));
    assert!(!r.contains(48001));
}

#[test]
fn a_rate_is_supported_if_any_range_holds_it() {
    let ranges = vec![
        ValueRange { minimum: bits(44100.0), maximum: bits(44100.0) },
        ValueRange { minimum: bits(88200.0), maximum: bits(96000.0) },
    ];
    assert!(supports_rate(&ranges, 44100));
    assert!(supports_rate(&ranges, 96000));
    assert!(!supports_rate(&ranges, 48000));
    assert!(!supports_rate(&vec![], 48000));
}
