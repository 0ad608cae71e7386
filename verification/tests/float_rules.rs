use overlay_config::floatbits::FloatBits;
use overlay_config::settings::AimSettings;

#[test]
fn nan_is_detected_on_bit_patterns() {
    assert!(FloatBits { bits: f32::NAN.to_bits() }.is_nan());
    assert!(FloatBits { bits: 0x7fc0_0001 }.is_nan());
    assert!(FloatBits { bits: 0xffa0_0000 }.is_nan());
    assert!(!FloatBits { bits: 0.0f32.to_bits() }.is_nan());
    assert!(!FloatBits { bits: (-0.0f32).to_bits() }.is_nan());
    assert!(!FloatBits { bits: f32::INFINITY.to_bits() }.is_nan());
    assert!(!FloatBits { bits: f32::NEG_INFINITY.to_bits() }.is_nan());
    assert!(!FloatBits { bits: 3.5f32.to_bits() }.is_nan());
    assert!(!FloatBits { bits: (-1.0f32).to_bits() }.is_nan());
}

#[test]
fn storing_nan_commits_the_zero_sentinel() {
    let mut aim = AimSettings::default();
    aim.store_angle_per_pixel(FloatBits { bits: f32::NAN.to_bits() });
    assert_eq!(aim.angle_per_pixel.bits, 0.0f32.to_bits());
    // Storing NaN commits exactly what storing 0.0 commits.
    let mut aim2 = AimSettings::default();
    aim2.store_angle_per_pixel(FloatBits { bits: 0.0f32.to_bits() });
    assert_eq!(aim.angle_per_pixel, aim2.angle_per_pixel);
}

#[test]
fn storing_finite_values_passes_them_through_unchanged() {
    let mut aim = AimSettings::default();
    aim.store_angle_per_pixel(FloatBits { bits: 3.5f32.to_bits() });
    assert_eq!(f32::from_bits(aim.angle_per_pixel.bits), 3.5f32);
    aim.store_angle_per_pixel(FloatBits { bits: (-2.25f32).to_bits() });
    assert_eq!(f32::from_bits(aim.angle_per_pixel.bits), -2.25f32);
    aim.store_angle_per_pixel(FloatBits { bits: 0.0f32.to_bits() });
    assert_eq!(f32::from_bits(aim.angle_per_pixel.bits), 0.0f32);
}

#[test]
fn storing_never_touches_the_other_aim_fields() {
    let mut aim = AimSettings::default();
    let players = aim.players;
    let creeps = aim.creeps;
    let soul = aim.soul_color;
    aim.store_angle_per_pixel(FloatBits { bits: f32::NAN.to_bits() });
    assert_eq!(aim.players, players);
    assert_eq!(aim.creeps, creeps);
    assert_eq!(aim.soul_color, soul);
}
