use garden_system::control_pad::{ButtonStage, ButtonState, ButtonType, ControlPad};

// Readings that sit inside each button's range.
const SELECT_READING: u16 = 200;
const LEFT_READING: u16 = 400;
const RIGHT_READING: u16 = 1000;

#[test]
fn classification_ranges() {
    assert!(ButtonType::from_reading(194).is_none());
    assert!(matches!(ButtonType::from_reading(195), Some(ButtonType::Select)));
    assert!(matches!(ButtonType::from_reading(219), Some(ButtonType::Select)));
    assert!(ButtonType::from_reading(220).is_none());
    assert!(matches!(ButtonType::from_reading(395), Some(ButtonType::Left)));
    assert!(matches!(ButtonType::from_reading(414), Some(ButtonType::Left)));
    assert!(ButtonType::from_reading(415).is_none());
    assert!(ButtonType::from_reading(989).is_none());
    assert!(matches!(ButtonType::from_reading(990), Some(ButtonType::Right)));
    assert!(matches!(ButtonType::from_reading(1022), Some(ButtonType::Right)));
    assert!(ButtonType::from_reading(1023).is_none());
    assert!(ButtonType::from_reading(0).is_none());
}

#[test]
fn debounce_full_cycle() {
    // Feeding (button A, button A, no-button, no-button) yields stages
    // (Down, Hold, Release, None) across four ticks.
    let mut pad = ControlPad::new();
    assert!(pad.state.is_none());

    pad.update(SELECT_READING);
    assert!(matches!(
        pad.state,
        Some(ButtonState { stage: ButtonStage::Down, button: ButtonType::Select })
    ));

    pad.update(SELECT_READING);
    assert!(matches!(
        pad.state,
        Some(ButtonState { stage: ButtonStage::Hold, button: ButtonType::Select })
    ));

    pad.update(0);
    assert!(matches!(
        pad.state,
        Some(ButtonState { stage: ButtonStage::Release, button: ButtonType::Select })
    ));

    pad.update(0);
    assert!(pad.state.is_none());
}

#[test]
fn debounce_ignores_a_different_button_while_down() {
    // Feeding (button A, button B) while in Down leaves the state unchanged.
    let mut pad = ControlPad::new();
    pad.update(SELECT_READING);
    assert!(matches!(
        pad.state,
        Some(ButtonState { stage: ButtonStage::Down, button: ButtonType::Select })
    ));

    pad.update(LEFT_READING);
    assert!(matches!(
        pad.state,
        Some(ButtonState { stage: ButtonStage::Down, button: ButtonType::Select })
    ));
}

#[test]
fn debounce_down_needs_the_same_button_to_hold() {
    let mut pad = ControlPad::new();
    pad.update(RIGHT_READING);
    pad.update(RIGHT_READING);
    assert!(matches!(
        pad.state,
        Some(ButtonState { stage: ButtonStage::Hold, button: ButtonType::Right })
    ));
    // A held button stays held while it is pressed.
    pad.update(RIGHT_READING);
    assert!(matches!(
        pad.state,
        Some(ButtonState { stage: ButtonStage::Hold, button: ButtonType::Right })
    ));
}

#[test]
fn debounce_release_clears_whatever_comes_next() {
    let mut pad = ControlPad::new();
    pad.update(LEFT_READING);
    pad.update(LEFT_READING);
    pad.update(0);
    assert!(matches!(
        pad.state,
        Some(ButtonState { stage: ButtonStage::Release, button: ButtonType::Left })
    ));
    // Even a fresh press on the very next tick is dropped: the slot frees first.
    pad.update(SELECT_READING);
    assert!(pad.state.is_none());
}

#[test]
fn button_state_starts_down() {
    let state = ButtonState::new(ButtonType::Left);
    assert!(matches!(state.stage, ButtonStage::Down));
    assert!(matches!(state.button, ButtonType::Left));
}
