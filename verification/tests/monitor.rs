use sound_inactive::engine::{
    apply_lower_actions, apply_restore_actions, clamp_volume, AudioSnapshot, Engine, EngineState,
    TickDecision, QUIET_VOLUME_LEVEL, VOLUME_EPSILON, VOLUME_FULL_SCALE,
};
use sound_inactive::errors::MonitorError;
use sound_inactive::idle::idle_time_millis;
use sound_inactive::threshold::{
    inactivity_threshold, set_inactivity_threshold, set_sound_inactivity_timeout, ThresholdCell,
    DEFAULT_INACTIVITY_THRESHOLD_SECS,
};

#[test]
fn threshold_read_back_after_set() {
    let mut cell = ThresholdCell::new();
    assert_eq!(set_inactivity_threshold(&mut cell, 90, 0), Ok(()));
    assert_eq!(inactivity_threshold(&cell), 90);
    assert_eq!(set_inactivity_threshold(&mut cell, 3600, 250_000_000), Ok(()));
    assert_eq!(inactivity_threshold(&cell), 3600);
}

#[test]
fn subsecond_threshold_floors_to_one_second() {
    let mut cell = ThresholdCell::new();
    assert_eq!(set_inactivity_threshold(&mut cell, 0, 500_000_000), Ok(()));
    assert_eq!(inactivity_threshold(&cell), 1);
}

#[test]
fn zero_threshold_rejected_and_value_kept() {
    let mut cell = ThresholdCell::new();
    assert_eq!(
        set_inactivity_threshold(&mut cell, 0, 0),
        Err(MonitorError::InvalidThreshold)
    );
    assert_eq!(inactivity_threshold(&cell), DEFAULT_INACTIVITY_THRESHOLD_SECS);

    assert_eq!(set_inactivity_threshold(&mut cell, 45, 0), Ok(()));
    assert_eq!(
        set_inactivity_threshold(&mut cell, 0, 0),
        Err(MonitorError::InvalidThreshold)
    );
    assert_eq!(inactivity_threshold(&cell), 45);
}

#[test]
fn timeout_command_defaults_to_five_minutes() {
    let mut cell = ThresholdCell::new();
    assert_eq!(set_sound_inactivity_timeout(&mut cell, None), Ok(()));
    assert_eq!(inactivity_threshold(&cell), 300);
}

#[test]
fn timeout_command_converts_minutes_to_seconds() {
    let mut cell = ThresholdCell::new();
    assert_eq!(set_sound_inactivity_timeout(&mut cell, Some(2)), Ok(()));
    assert_eq!(inactivity_threshold(&cell), 120);
}

#[test]
fn timeout_command_rejects_zero_minutes() {
    let mut cell = ThresholdCell::new();
    assert_eq!(set_sound_inactivity_timeout(&mut cell, Some(7)), Ok(()));
    assert_eq!(
        set_sound_inactivity_timeout(&mut cell, Some(0)),
        Err(MonitorError::InvalidThreshold)
    );
    assert_eq!(inactivity_threshold(&cell), 420);
}

#[test]
fn timeout_command_saturates_on_overflow() {
    let mut cell = ThresholdCell::new();
    assert_eq!(set_sound_inactivity_timeout(&mut cell, Some(u64::MAX)), Ok(()));
    assert_eq!(inactivity_threshold(&cell), u64::MAX);
}

#[test]
fn idle_time_clamps_to_zero_on_wrap() {
    assert_eq!(idle_time_millis(100, 200), 0);
    assert_eq!(idle_time_millis(0, u32::MAX), 0);
}

#[test]
fn idle_time_is_the_counter_difference() {
    assert_eq!(idle_time_millis(10_000, 4_000), 6_000);
    assert_eq!(idle_time_millis(5_000, 5_000), 0);
    assert_eq!(idle_time_millis(u64::MAX, 0), u64::MAX);
}

#[test]
fn lowering_silences_whatever_came_before() {
    let mut engine = Engine::new();
    assert_eq!(engine.decide(5_000, 5), TickDecision::Lower);

    let mut endpoint = AudioSnapshot { volume: 7_300, muted: false };
    let actions = engine.enter_lowered(endpoint);
    apply_lower_actions(&mut endpoint, actions);
    assert!(endpoint.muted);
    assert!(endpoint.volume <= QUIET_VOLUME_LEVEL + VOLUME_EPSILON);

    let mut engine2 = Engine::new();
    let mut endpoint2 = AudioSnapshot { volume: 9_999, muted: true };
    let actions2 = engine2.enter_lowered(endpoint2);
    apply_lower_actions(&mut endpoint2, actions2);
    assert!(endpoint2.muted);
    assert_eq!(endpoint2.volume, 0);
}

#[test]
fn lowering_skips_redundant_calls_within_tolerance() {
    let mut engine = Engine::new();
    let actions = engine.enter_lowered(AudioSnapshot { volume: 150, muted: true });
    assert!(!actions.set_mute);
    assert!(!actions.set_quiet_volume);
}

#[test]
fn threshold_boundary_is_inclusive() {
    let engine = Engine::new();
    assert_eq!(engine.decide(5_000, 5), TickDecision::Lower);
    assert_eq!(engine.decide(4_999, 5), TickDecision::Hold);
}

#[test]
fn restoration_is_exact() {
    let mut engine = Engine::new();
    let mut endpoint = AudioSnapshot { volume: 7_300, muted: false };

    let lower = engine.enter_lowered(endpoint);
    apply_lower_actions(&mut endpoint, lower);
    assert_eq!(engine.decide(1_000, 5), TickDecision::Restore);

    let restore = engine.exit_lowered();
    apply_restore_actions(&mut endpoint, restore);
    assert_eq!(endpoint, AudioSnapshot { volume: 7_300, muted: false });
    assert_eq!(engine.state, EngineState::Normal);
}

#[test]
fn restoration_keeps_a_user_mute() {
    let mut engine = Engine::new();
    let mut endpoint = AudioSnapshot { volume: 4_000, muted: true };

    let lower = engine.enter_lowered(endpoint);
    apply_lower_actions(&mut endpoint, lower);

    let restore = engine.exit_lowered();
    apply_restore_actions(&mut endpoint, restore);
    assert!(endpoint.muted);
    assert_eq!(endpoint.volume, 4_000);
}

#[test]
fn repeated_idle_ticks_hold_after_lowering() {
    let mut engine = Engine::new();
    engine.enter_lowered(AudioSnapshot { volume: 8_000, muted: false });
    assert_eq!(engine.decide(6_000, 5), TickDecision::Hold);
    assert_eq!(engine.decide(60_000, 5), TickDecision::Hold);
    assert_eq!(engine.decide(u64::MAX, 5), TickDecision::Hold);
}

#[test]
fn active_normal_ticks_hold() {
    let engine = Engine::new();
    assert_eq!(engine.decide(0, 300), TickDecision::Hold);
    assert_eq!(engine.decide(299_999, 300), TickDecision::Hold);
}

#[test]
fn huge_threshold_never_met() {
    let engine = Engine::new();
    assert_eq!(engine.decide(u64::MAX, u64::MAX), TickDecision::Hold);
}

#[test]
fn volume_clamps_onto_the_scale() {
    assert_eq!(clamp_volume(12_000), VOLUME_FULL_SCALE);
    assert_eq!(clamp_volume(5_000), 5_000);
    assert_eq!(clamp_volume(VOLUME_FULL_SCALE), VOLUME_FULL_SCALE);
}

#[test]
fn error_messages_name_the_failure() {
    assert_eq!(
        MonitorError::InvalidThreshold.message(),
        "the inactivity duration must be greater than zero"
    );
    assert_eq!(
        MonitorError::UnsupportedPlatform.message(),
        "not supported on this platform"
    );
    assert_eq!(
        MonitorError::Spawn.message(),
        "could not start the monitoring loop"
    );
}
