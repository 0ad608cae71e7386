use overlay_config::edits::{
    AimEdit, EspEdit, HealthEdit, PropEdit, RadarEdit, SettingsEdit, TextEdit,
};
use overlay_config::floatbits::FloatBits;
use overlay_config::session::{Lang, Session};
use overlay_config::settings::{BoxStyle, Rgba, Settings, TextAnchor};

fn bits(x: f32) -> FloatBits {
    FloatBits { bits: x.to_bits() }
}

#[test]
fn editing_players_fov_changes_no_other_field() {
    let mut s = Settings::default();
    let before = s;
    s.apply(SettingsEdit::Aim(AimEdit::Players(PropEdit::Fov(bits(555.0)))));
    assert_eq!(s.aim.players.fov, bits(555.0));
    // Everything else is exactly as it was.
    assert_eq!(s.aim.creeps, before.aim.creeps);
    assert_eq!(s.aim.angle_per_pixel, before.aim.angle_per_pixel);
    assert_eq!(s.aim.soul_color, before.aim.soul_color);
    assert_eq!(s.aim.players.smooth, before.aim.players.smooth);
    assert_eq!(s.aim.players.enable, before.aim.players.enable);
    assert_eq!(s.esp_players, before.esp_players);
    assert_eq!(s.radar, before.radar);
    assert_eq!(s.healthbars, before.healthbars);
}

#[test]
fn each_record_takes_its_own_edit() {
    let mut s = Settings::default();
    s.apply(SettingsEdit::Aim(AimEdit::Creeps(PropEdit::Targeting(true))));
    assert!(s.aim.creeps.targeting);
    assert!(!s.aim.players.targeting);
    s.apply(SettingsEdit::EspPlayers(EspEdit::ShadowBlur(bits(99.0))));
    assert_eq!(s.esp_players.shadow_blur, bits(99.0));
    s.apply(SettingsEdit::EspPlayers(EspEdit::TextHero(TextEdit::FontSize(bits(18.0)))));
    assert_eq!(s.esp_players.text_hero.font_size, bits(18.0));
    assert_ne!(s.esp_players.text_health.font_size, bits(18.0));
    s.apply(SettingsEdit::Radar(RadarEdit::ColorEnemy(Rgba::new(9, 8, 7, 6))));
    assert_eq!(s.radar.color_enemy, Rgba::new(9, 8, 7, 6));
    s.apply(SettingsEdit::Healthbars(HealthEdit::Enable(false)));
    assert!(!s.healthbars.enable);
    // The calibration constant is not reachable by any edit.
    assert_eq!(s.aim.angle_per_pixel.bits, 0.0f32.to_bits());
}

#[test]
fn nested_text_edits_stay_inside_their_record() {
    let mut s = Settings::default();
    let before = s;
    s.apply(SettingsEdit::EspPlayers(EspEdit::TextDistance(TextEdit::Shadow(false))));
    assert!(!s.esp_players.text_distance.shadow);
    assert_eq!(s.esp_players.text_hero, before.esp_players.text_hero);
    assert_eq!(s.esp_players.text_health, before.esp_players.text_health);
    assert_eq!(s.esp_players.render, before.esp_players.render);
}

#[test]
fn style_and_anchor_labels_are_exhaustive() {
    assert_eq!(BoxStyle::Plain.label(), "Default");
    assert_eq!(BoxStyle::Rounded.label(), "Rounded");
    assert_eq!(BoxStyle::Edges.label(), "Edges");
    assert_eq!(TextAnchor::TopCenter.label(), "Top center");
    assert_eq!(TextAnchor::TopLeft.label(), "Top left");
    assert_eq!(TextAnchor::TopRight.label(), "Top right");
    assert_eq!(TextAnchor::BottomCenter.label(), "Bottom center");
    assert_eq!(Lang::EN.label(), "English");
    assert_eq!(Lang::RU.label(), "Russian");
    assert_eq!(Lang::CH.label(), "Chinese");
}

#[test]
fn a_new_session_starts_from_the_default_tree() {
    let session = Session::new(Lang::EN, 11, 22);
    assert_eq!(session.overlay_window, 11);
    assert_eq!(session.target_window, 22);
    assert_eq!(session.settings, Settings::default());
    assert_eq!(session.settings.aim.angle_per_pixel.bits, 0.0f32.to_bits());
    assert_eq!(f32::from_bits(session.settings.aim.players.fov.bits), 100.0);
    assert_eq!(f32::from_bits(session.settings.aim.players.range.bits), 1000.0);
    assert_eq!(f32::from_bits(session.settings.radar.scale.bits), 25.0);
}
