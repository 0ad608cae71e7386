use overlay_config::calibration::{Action, CalibrationError, Calibrator, Phase};
use overlay_config::floatbits::FloatBits;
use overlay_config::settings::AimSettings;

/// Drives one whole calibration attempt, counting the focus-transfer
/// requests the machine issues, with the given focus outcome and sample.
fn run_attempt(
    aim: &mut AimSettings,
    target_focus_ok: bool,
    sample_bits: u32,
) -> (usize, usize, usize) {
    let mut focus_requests: usize = 0;
    let mut restore_requests: usize = 0;
    let mut sampler_runs: usize = 0;
    let mut cal = Calibrator::new();
    match cal.start(42) {
        Action::FocusTarget(w) => {
            assert_eq!(w, 42);
            focus_requests += 1;
        }
        other => panic!("unexpected action {other:?}"),
    }
    match cal.on_target_focus(target_focus_ok) {
        Ok(Action::RunSampler) => {
            assert!(target_focus_ok);
            sampler_runs += 1;
        }
        Err(CalibrationError::FocusTransferFailed) => {
            assert!(!target_focus_ok);
            assert_eq!(cal.phase, Phase::Idle);
            return (focus_requests, restore_requests, sampler_runs);
        }
        other => panic!("unexpected outcome {other:?}"),
    }
    cal.on_sample(FloatBits { bits: sample_bits });
    match cal.reconcile(aim, 7) {
        Action::FocusOverlay(w) => {
            assert_eq!(w, 7);
            restore_requests += 1;
        }
        other => panic!("unexpected action {other:?}"),
    }
    assert_eq!(cal.on_overlay_focus(true), Ok(()));
    assert_eq!(cal.phase, Phase::Idle);
    (focus_requests, restore_requests, sampler_runs)
}

#[test]
fn failed_target_focus_aborts_with_nothing_changed() {
    let mut aim = AimSettings::default();
    assert_eq!(aim.angle_per_pixel.bits, 0.0f32.to_bits());
    let (focus, restores, samples) = run_attempt(&mut aim, false, 1.0f32.to_bits());
    assert_eq!(aim.angle_per_pixel.bits, 0.0f32.to_bits());
    assert_eq!(focus, 1);
    assert_eq!(restores, 0);
    assert_eq!(samples, 0);
}

#[test]
fn failed_target_focus_preserves_a_previous_calibration() {
    let mut aim = AimSettings::default();
    aim.store_angle_per_pixel(FloatBits { bits: 1.75f32.to_bits() });
    let (_, restores, samples) = run_attempt(&mut aim, false, 9.0f32.to_bits());
    assert_eq!(aim.angle_per_pixel.bits, 1.75f32.to_bits());
    assert_eq!(restores, 0);
    assert_eq!(samples, 0);
}

#[test]
fn nan_sample_commits_the_sentinel_and_still_restores_focus() {
    let mut aim = AimSettings::default();
    let (focus, restores, samples) = run_attempt(&mut aim, true, f32::NAN.to_bits());
    assert_eq!(aim.angle_per_pixel.bits, 0.0f32.to_bits());
    assert_eq!(focus + restores, 2);
    assert_eq!(restores, 1);
    assert_eq!(samples, 1);
}

#[test]
fn finite_sample_is_committed_verbatim() {
    let mut aim = AimSettings::default();
    let (focus, restores, samples) = run_attempt(&mut aim, true, 3.5f32.to_bits());
    assert_eq!(f32::from_bits(aim.angle_per_pixel.bits), 3.5f32);
    assert_eq!(focus + restores, 2);
    assert_eq!(restores, 1);
    assert_eq!(samples, 1);
}

#[test]
fn nan_sample_overwrites_a_previous_calibration_with_the_sentinel() {
    let mut aim = AimSettings::default();
    aim.store_angle_per_pixel(FloatBits { bits: 2.5f32.to_bits() });
    run_attempt(&mut aim, true, f32::NAN.to_bits());
    // A sampling failure after entry is never a silent no-op.
    assert_eq!(aim.angle_per_pixel.bits, 0.0f32.to_bits());
}

#[test]
fn failed_focus_restore_is_reported_but_keeps_the_committed_value() {
    let mut aim = AimSettings::default();
    let mut cal = Calibrator::new();
    cal.start(42);
    assert_eq!(cal.on_target_focus(true), Ok(Action::RunSampler));
    cal.on_sample(FloatBits { bits: 6.25f32.to_bits() });
    cal.reconcile(&mut aim, 7);
    assert_eq!(
        cal.on_overlay_focus(false),
        Err(CalibrationError::FocusRestoreFailed)
    );
    assert_eq!(cal.phase, Phase::Idle);
    assert_eq!(f32::from_bits(aim.angle_per_pixel.bits), 6.25f32);
}

#[test]
fn reconcile_touches_only_the_calibration_constant() {
    let mut aim = AimSettings::default();
    let players = aim.players;
    let creeps = aim.creeps;
    let soul = aim.soul_color;
    run_attempt(&mut aim, true, 4.0f32.to_bits());
    assert_eq!(aim.players, players);
    assert_eq!(aim.creeps, creeps);
    assert_eq!(aim.soul_color, soul);
}
