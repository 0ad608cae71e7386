use overlay_config::edits::{AimEdit, EspEdit, PropEdit, RadarEdit, SettingsEdit, TextEdit};
use overlay_config::floatbits::FloatBits;
use overlay_config::profile;
use overlay_config::profile::ProfileError;
use overlay_config::settings::{BoxStyle, Rgba, Settings, TextAnchor};

fn bits(x: f32) -> FloatBits {
    FloatBits { bits: x.to_bits() }
}

#[test]
fn default_tree_round_trips() {
    let s = Settings::default();
    let bytes = profile::encode(&s);
    assert_eq!(bytes.len(), 161);
    assert_eq!(profile::decode(&bytes), Ok(s));
}

#[test]
fn edited_tree_round_trips() {
    let mut s = Settings::default();
    s.apply(SettingsEdit::Aim(AimEdit::Players(PropEdit::Fov(bits(640.0)))));
    s.apply(SettingsEdit::Aim(AimEdit::Creeps(PropEdit::Enable(true))));
    s.apply(SettingsEdit::Aim(AimEdit::SoulColor(Rgba::new(1, 2, 3, 4))));
    s.apply(SettingsEdit::EspPlayers(EspEdit::Style(BoxStyle::Edges)));
    s.apply(SettingsEdit::EspPlayers(EspEdit::TextHealth(TextEdit::Align(
        TextAnchor::BottomCenter,
    ))));
    s.apply(SettingsEdit::Radar(RadarEdit::Scale(bits(40.0))));
    s.aim.store_angle_per_pixel(bits(-0.125));
    let bytes = profile::encode(&s);
    assert_eq!(profile::decode(&bytes), Ok(s));
}

#[test]
fn out_of_range_float_is_retained_verbatim() {
    // A profile holding range = 9999.0, above the declared [200, 5000]
    // editable bound, still loads, and the value passes through untouched.
    let mut s = Settings::default();
    s.apply(SettingsEdit::Aim(AimEdit::Players(PropEdit::Range(bits(9999.0)))));
    let bytes = profile::encode(&s);
    let loaded = profile::decode(&bytes).expect("an out-of-range float must not fail a load");
    assert_eq!(f32::from_bits(loaded.aim.players.range.bits), 9999.0f32);
}

#[test]
fn wrong_length_is_a_parse_failure() {
    assert_eq!(profile::decode(&vec![0u8; 160]), Err(ProfileError::ParseFailure));
    assert_eq!(profile::decode(&vec![0u8; 162]), Err(ProfileError::ParseFailure));
    assert_eq!(profile::decode(&Vec::new()), Err(ProfileError::ParseFailure));
}

#[test]
fn bad_boolean_byte_is_a_parse_failure() {
    let s = Settings::default();
    let mut bytes = profile::encode(&s);
    // The first target-class enable flag sits after the 4-byte ratio.
    bytes[4] = 2;
    assert_eq!(profile::decode(&bytes), Err(ProfileError::ParseFailure));
}

#[test]
fn bad_enum_tag_is_a_parse_failure() {
    let s = Settings::default();
    let mut bytes = profile::encode(&s);
    // The box-style tag is the second byte of the annotation record.
    bytes[57] = 9;
    assert_eq!(profile::decode(&bytes), Err(ProfileError::ParseFailure));
}

#[test]
fn failed_load_retains_the_prior_tree() {
    let mut s = Settings::default();
    s.apply(SettingsEdit::Radar(RadarEdit::Enable(false)));
    let before = s;
    let r = profile::apply(&mut s, &vec![1u8, 2, 3]);
    assert_eq!(r, Err(ProfileError::ParseFailure));
    assert_eq!(s, before);
}

#[test]
fn successful_load_replaces_the_whole_tree() {
    let mut donor = Settings::default();
    donor.apply(SettingsEdit::Aim(AimEdit::Players(PropEdit::Smooth(bits(7.5)))));
    donor.apply(SettingsEdit::EspPlayers(EspEdit::Render(false)));
    let bytes = profile::encode(&donor);
    let mut s = Settings::default();
    assert_eq!(profile::apply(&mut s, &bytes), Ok(()));
    assert_eq!(s, donor);
}
