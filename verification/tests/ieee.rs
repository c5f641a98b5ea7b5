use wrc::ieee::{exponent_of, finite, fraction_of, nan, scaled_floor_saturating, sign_of};
use wrc::format::percentage;

#[test]
fn fields_of_one() {
    let one = 1.0f32.to_bits();
    assert_eq!(exponent_of(one), 127);
    assert_eq!(fraction_of(one), 0);
    assert!(!sign_of(one));
    assert!(sign_of((-1.0f32).to_bits()));
    assert_eq!(exponent_of(1.5f32.to_bits()), 127);
    assert_eq!(fraction_of(1.5f32.to_bits()), 0x0040_0000);
}

#[test]
fn nan_and_infinity() {
    assert!(nan(f32::NAN.to_bits()));
    assert!(!nan(f32::INFINITY.to_bits()));
    assert!(!nan(1.0f32.to_bits()));
    assert!(!finite(f32::NAN.to_bits()));
    assert!(!finite(f32::INFINITY.to_bits()));
    assert!(!finite(f32::NEG_INFINITY.to_bits()));
    assert!(finite(f32::MAX.to_bits()));
    assert!(finite(0));
    assert!(finite(1.0e-45f32.to_bits()));
}

#[test]
fn scaled_floor_exact_values() {
    assert_eq!(scaled_floor_saturating(1.0f32.to_bits(), 1), 1);
    assert_eq!(scaled_floor_saturating(0.75f32.to_bits(), 4), 3);
    assert_eq!(scaled_floor_saturating(0.75f32.to_bits(), 1), 0);
    assert_eq!(scaled_floor_saturating(16777216.0f32.to_bits(), 3), 50331648);
    assert_eq!(scaled_floor_saturating(4294967296.0f32.to_bits(), 1), 4294967296);
    assert_eq!(scaled_floor_saturating(4294967296.0f32.to_bits(), u32::MAX), 18446744069414584320);
    assert_eq!(scaled_floor_saturating(1.0e30f32.to_bits(), 1), u64::MAX);
    assert_eq!(scaled_floor_saturating(1.0e30f32.to_bits(), 0), 0);
    assert_eq!(scaled_floor_saturating((-2.5f32).to_bits(), 2), 5);
    assert_eq!(scaled_floor_saturating(1.0e-45f32.to_bits(), u32::MAX), 0);
}

#[test]
fn scaled_floor_agrees_with_double_precision() {
    // A single-precision value times a small whole number is exact in
    // double precision.
    let mut x = 0.000_123f32;
    while x < 1.0e6 {
        for scale in [1u32, 7, 100, 1000] {
            let want = (x as f64 * scale as f64).floor() as u64;
            assert_eq!(scaled_floor_saturating(x.to_bits(), scale), want, "{} * {}", x, scale);
        }
        x *= 1.37;
    }
}

#[test]
fn percentage_of_a_fraction_is_within_bounds() {
    let mut bits = 0u32;
    while bits <= 1.0f32.to_bits() {
        let r = percentage(bits);
        assert!(r <= 100);
        assert_eq!(r, (f32::from_bits(bits) as f64 * 100.0).floor() as usize);
        bits += 104_729;
    }
    assert_eq!(percentage(1.0f32.to_bits() + 1), 100);
    assert_eq!(percentage(1.0625f32.to_bits()), 106);
}
