use garden_system::config::{
    adjust_value, ActivationState, SystemConfig, SystemValue, UpdateSystemValue, ValueAction,
};

fn advance(config: &mut SystemConfig) {
    config.update_next_tick(UpdateSystemValue::ActivationState);
    config.update();
}

#[test]
fn defaults() {
    let config = SystemConfig::new();
    assert_eq!(config.activate_mins, 10);
    assert_eq!(config.min_light, 100);
    assert_eq!(config.min_moisture, 100);
    assert!(matches!(config.activation_state, ActivationState::Waiting));
    assert!(config.update.is_none());
}

#[test]
fn empty_slot_update_is_noop() {
    let mut config = SystemConfig::new();
    let taken = config.update();
    assert!(taken.is_none());
    assert_eq!(config.activate_mins, 10);
    assert_eq!(config.min_light, 100);
    assert_eq!(config.min_moisture, 100);
    assert!(matches!(config.activation_state, ActivationState::Waiting));
}

#[test]
fn increment_saturates_at_max() {
    // Light: default 100, step 25, max 1050 => 38 increments to saturate.
    let mut config = SystemConfig::new();
    for i in 1..=38u32 {
        config.update_next_tick(UpdateSystemValue::Light(ValueAction::Increment));
        config.update();
        assert_eq!(config.min_light as u32, 100 + 25 * i);
        assert!(config.min_light <= 1050);
    }
    assert_eq!(config.min_light, 1050);
    config.update_next_tick(UpdateSystemValue::Light(ValueAction::Increment));
    config.update();
    assert_eq!(config.min_light, 1050);
}

#[test]
fn decrement_saturates_at_min() {
    // Moisture: default 100, step 25, min 0 => 4 decrements to saturate.
    let mut config = SystemConfig::new();
    for i in 1..=4u32 {
        config.update_next_tick(UpdateSystemValue::Moisture(ValueAction::Decrement));
        config.update();
        assert_eq!(config.min_moisture as u32, 100 - 25 * i);
    }
    assert_eq!(config.min_moisture, 0);
    config.update_next_tick(UpdateSystemValue::Moisture(ValueAction::Decrement));
    config.update();
    assert_eq!(config.min_moisture, 0);
}

#[test]
fn time_clamps_at_both_bounds() {
    // Time: default 10, step 5, min 5, max 60.
    let mut config = SystemConfig::new();
    config.update_next_tick(UpdateSystemValue::Time(ValueAction::Decrement));
    config.update();
    assert_eq!(config.activate_mins, 5);
    config.update_next_tick(UpdateSystemValue::Time(ValueAction::Decrement));
    config.update();
    assert_eq!(config.activate_mins, 5);
    for _ in 0..11 {
        config.update_next_tick(UpdateSystemValue::Time(ValueAction::Increment));
        config.update();
    }
    assert_eq!(config.activate_mins, 60);
    config.update_next_tick(UpdateSystemValue::Time(ValueAction::Increment));
    config.update();
    assert_eq!(config.activate_mins, 60);
}

#[test]
fn adjust_value_exact() {
    assert_eq!(adjust_value(100, 25, 0, 1050, ValueAction::Increment), 125);
    assert_eq!(adjust_value(1025, 25, 0, 1050, ValueAction::Increment), 1050);
    assert_eq!(adjust_value(1040, 25, 0, 1050, ValueAction::Increment), 1050);
    assert_eq!(adjust_value(25, 25, 0, 1050, ValueAction::Decrement), 0);
    assert_eq!(adjust_value(20, 25, 0, 1050, ValueAction::Decrement), 0);
    assert_eq!(adjust_value(10, 5, 5, 60, ValueAction::Decrement), 5);
}

#[test]
fn transition_table() {
    // Every state has exactly one next state under AdvanceActivationState.
    let mut config = SystemConfig::new();
    assert!(matches!(config.activation_state, ActivationState::Waiting));
    // Waiting -> Activated
    advance(&mut config);
    assert!(matches!(config.activation_state, ActivationState::Activated));
    // Activated -> Waiting
    advance(&mut config);
    assert!(matches!(config.activation_state, ActivationState::Waiting));
    // Waiting -> Suspending (toggle), then Suspending -> Suspended
    config.update_next_tick(UpdateSystemValue::Suspend);
    config.update();
    assert!(matches!(config.activation_state, ActivationState::Suspending));
    advance(&mut config);
    assert!(matches!(config.activation_state, ActivationState::Suspended));
    // Suspended -> Waiting
    advance(&mut config);
    assert!(matches!(config.activation_state, ActivationState::Waiting));
    // Waiting -> Activating (toggle), then Activating -> Activated
    config.update_next_tick(UpdateSystemValue::Activate);
    config.update();
    assert!(matches!(config.activation_state, ActivationState::Activating));
    advance(&mut config);
    assert!(matches!(config.activation_state, ActivationState::Activated));
}

#[test]
fn toggle_activate_cancels() {
    let mut config = SystemConfig::new();
    config.update_next_tick(UpdateSystemValue::Activate);
    config.update();
    assert!(matches!(config.activation_state, ActivationState::Activating));
    config.update_next_tick(UpdateSystemValue::Activate);
    config.update();
    assert!(matches!(config.activation_state, ActivationState::Waiting));
}

#[test]
fn toggle_suspend_cancels() {
    let mut config = SystemConfig::new();
    config.update_next_tick(UpdateSystemValue::Suspend);
    config.update();
    assert!(matches!(config.activation_state, ActivationState::Suspending));
    config.update_next_tick(UpdateSystemValue::Suspend);
    config.update();
    assert!(matches!(config.activation_state, ActivationState::Waiting));
}

#[test]
fn reset_restores_defaults_regardless_of_prior_state() {
    let mut config = SystemConfig::new();
    for _ in 0..3 {
        config.update_next_tick(UpdateSystemValue::Time(ValueAction::Increment));
        config.update();
    }
    config.update_next_tick(UpdateSystemValue::Light(ValueAction::Decrement));
    config.update();
    config.update_next_tick(UpdateSystemValue::Activate);
    config.update();
    advance(&mut config);
    assert!(matches!(config.activation_state, ActivationState::Activated));

    config.reset();
    assert_eq!(config.activate_mins, 10);
    assert_eq!(config.min_light, 100);
    assert_eq!(config.min_moisture, 100);
    assert!(matches!(config.activation_state, ActivationState::Waiting));
}

#[test]
fn reset_update_restores_defaults() {
    let mut config = SystemConfig::new();
    config.update_next_tick(UpdateSystemValue::Moisture(ValueAction::Increment));
    config.update();
    assert_eq!(config.min_moisture, 125);
    config.update_next_tick(UpdateSystemValue::Reset);
    let taken = config.update();
    assert!(matches!(taken, Some(UpdateSystemValue::Reset)));
    assert_eq!(config.min_moisture, 100);
    assert!(config.update.is_none());
}

#[test]
fn pending_update_overwrite_applies_only_the_second() {
    // Enqueueing update X then Y before a tick applies only Y's effect.
    let mut config = SystemConfig::new();
    config.update_next_tick(UpdateSystemValue::Time(ValueAction::Increment));
    config.update_next_tick(UpdateSystemValue::Light(ValueAction::Increment));
    let taken = config.update();
    assert!(matches!(
        taken,
        Some(UpdateSystemValue::Light(ValueAction::Increment))
    ));
    assert_eq!(config.activate_mins, 10);
    assert_eq!(config.min_light, 125);
}

#[test]
fn state_queries() {
    assert!(ActivationState::Activating.is_activating());
    assert!(ActivationState::Activated.is_activated());
    assert!(ActivationState::Suspending.is_suspending());
    assert!(ActivationState::Suspended.is_suspended());
    assert!(ActivationState::Waiting.is_waiting());
    assert!(!ActivationState::Waiting.is_activated());
    assert!(!ActivationState::Activating.is_activated());
}

#[test]
fn from_value_keeps_the_field() {
    let update = UpdateSystemValue::from_value(&SystemValue::Time(10), ValueAction::Increment);
    assert!(matches!(
        update,
        UpdateSystemValue::Time(ValueAction::Increment)
    ));
    let update = UpdateSystemValue::from_value(&SystemValue::Light(0), ValueAction::Decrement);
    assert!(matches!(
        update,
        UpdateSystemValue::Light(ValueAction::Decrement)
    ));
    let update = UpdateSystemValue::from_value(
        &SystemValue::Suspend(ActivationState::Waiting),
        ValueAction::Increment,
    );
    assert!(matches!(update, UpdateSystemValue::Suspend));
    let update = UpdateSystemValue::from_value(
        &SystemValue::Activate(ActivationState::Waiting),
        ValueAction::Increment,
    );
    assert!(matches!(update, UpdateSystemValue::Activate));
}

#[test]
fn to_value_reads_the_current_configuration() {
    let mut config = SystemConfig::new();
    config.update_next_tick(UpdateSystemValue::Time(ValueAction::Increment));
    config.update();
    let value = UpdateSystemValue::Time(ValueAction::Increment).to_value(&config);
    assert!(matches!(value, Some(SystemValue::Time(15))));
    let value = UpdateSystemValue::Reset.to_value(&config);
    assert!(value.is_none());
    let value = UpdateSystemValue::ActivationState.to_value(&config);
    assert!(matches!(
        value,
        Some(SystemValue::Activate(ActivationState::Waiting))
    ));
}

#[test]
fn inner_as_ref_exposes_numeric_actions_only() {
    let update = UpdateSystemValue::Moisture(ValueAction::Decrement);
    assert!(matches!(
        update.inner_as_ref(),
        Some(ValueAction::Decrement)
    ));
    assert!(UpdateSystemValue::Reset.inner_as_ref().is_none());
    assert!(UpdateSystemValue::Activate.inner_as_ref().is_none());
    assert!(UpdateSystemValue::Suspend.inner_as_ref().is_none());
    assert!(UpdateSystemValue::ActivationState.inner_as_ref().is_none());
}
