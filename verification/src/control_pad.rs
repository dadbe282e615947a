//! Button debouncing.
//!
//! One analog channel carries all three buttons; a raw reading is classified
//! into a logical button by disjoint numeric ranges, and a small automaton
//! tracks the press through its stages. A full press is only confirmed on the
//! `Release` stage, which gives a minimum of three ticks between a press
//! being recognized and the slot becoming available again — the intended
//! debounce delay.

use vstd::prelude::*;

verus! {

/// The lower bound of the analog read for button 1 (Select)
pub const BUTTON_1_LOWER: u16 = 195;
/// The upper bound of the analog read for button 1 (Select)
pub const BUTTON_1_UPPER: u16 = 220;
/// The lower bound of the analog read for button 2 (Left)
pub const BUTTON_2_LOWER: u16 = 395;
/// The upper bound of the analog read for button 2 (Left)
pub const BUTTON_2_UPPER: u16 = 415;
/// The lower bound of the analog read for button 3 (Right)
pub const BUTTON_3_LOWER: u16 = 990;
/// The upper bound of the analog read for button 3 (Right)
pub const BUTTON_3_UPPER: u16 = 1023;

/// Variants representing a button
#[derive(Clone, Copy, Debug, PartialEq, Eq, Structural)]
pub enum ButtonType {
    /// Button 1
    Select,
    /// Button 2
    Left,
    /// Button 3
    Right,
}

/// Variants representing the current stage of a button press
#[derive(Clone, Copy, Debug, PartialEq, Eq, Structural)]
pub enum ButtonStage {
    /// Button has been pressed down
    Down,
    /// Button is being held down
    Hold,
    /// Button was released
    Release,
}

/// Represents the current state of a button
#[derive(Clone, Copy, Debug, PartialEq, Eq, Structural)]
pub struct ButtonState {
    /// Button stage
    pub stage: ButtonStage,
    /// Button type
    pub button: ButtonType,
}

/// The logical button whose range holds the reading; readings outside every
/// range mean that no button is pressed.
pub open spec fn classified(value: u16) -> Option<ButtonType> {
    if BUTTON_1_LOWER <= value && value < BUTTON_1_UPPER {
        Some(ButtonType::Select)
    } else if BUTTON_2_LOWER <= value && value < BUTTON_2_UPPER {
        Some(ButtonType::Left)
    } else if BUTTON_3_LOWER <= value && value < BUTTON_3_UPPER {
        Some(ButtonType::Right)
    } else {
        None
    }
}

/// One step of the debounce automaton, fed the tracked state and the button
/// the fresh reading classified to:
///
/// - no button tracked and one detected: track it, stage `Down`;
/// - `Down` and the same button still detected: stage `Hold`;
/// - `Hold` and no button detected: stage `Release`;
/// - `Release`, regardless of the new reading: clear to no button;
/// - any other combination is ignored — in particular a different button
///   appearing while one is tracked, a deliberate simplification.
pub open spec fn debounced(
    state: Option<ButtonState>,
    button: Option<ButtonType>,
) -> Option<ButtonState> {
    match (state, button) {
        (None, Some(b)) => Some(ButtonState { stage: ButtonStage::Down, button: b }),
        (None, None) => None,
        (Some(bs), b) => match (bs.stage, b) {
            (ButtonStage::Down, Some(pressed)) => if pressed == bs.button {
                Some(ButtonState { stage: ButtonStage::Hold, button: bs.button })
            } else {
                state
            },
            (ButtonStage::Hold, None) => Some(
                ButtonState { stage: ButtonStage::Release, button: bs.button },
            ),
            (ButtonStage::Release, _) => None,
            _ => state,
        },
    }
}

impl ButtonState {
    /// Create a new button state with the button in the [`ButtonStage::Down`] stage
    pub fn new(button: ButtonType) -> (r: Self)
        ensures
            r == (ButtonState { stage: ButtonStage::Down, button }),
    {
        Self { stage: ButtonStage::Down, button }
    }
}

impl ButtonType {
    /// Attempt to convert the analog reading into a [`ButtonType`] based on
    /// the lower and upper bounds for each button
    pub fn from_reading(value: u16) -> (r: Option<Self>)
        ensures
            r == classified(value),
    {
        if value >= BUTTON_1_LOWER && value < BUTTON_1_UPPER {
            Some(Self::Select)
        } else if value >= BUTTON_2_LOWER && value < BUTTON_2_UPPER {
            Some(Self::Left)
        } else if value >= BUTTON_3_LOWER && value < BUTTON_3_UPPER {
            Some(Self::Right)
        } else {
            None
        }
    }
}

/// Current state of the "control pad", i.e. buttons.
///
/// The analog sampling itself happens outside: each tick hands
/// [`ControlPad::update`] one fresh reading.
pub struct ControlPad {
    /// Whether a button is in a state, and what state it is in
    ///
    /// `None` means that no button is being pressed.
    pub state: Option<ButtonState>,
}

impl ControlPad {
    /// Create a new `ControlPad` with no button tracked
    pub fn new() -> (r: Self)
        ensures
            r.state is None,
    {
        Self { state: None }
    }

    /// Classifies a fresh analog reading and advances the debounce automaton
    /// one step
    pub fn update(&mut self, value: u16)
        ensures
            final(self).state == debounced(old(self).state, classified(value)),
    {
        let button = ButtonType::from_reading(value);

        // Compare the current state with the new reading. A press of one
        // button in the same tick that another is released goes unseen: the
        // automaton ignores the combination, as documented.
        match (&mut self.state, button) {
            (None, Some(b)) => {
                self.state = Some(ButtonState::new(b));
            }
            (Some(button_state), b) => {
                match (&button_state.stage, b) {
                    (ButtonStage::Down, Some(pressed)) => {
                        if pressed == button_state.button {
                            button_state.stage = ButtonStage::Hold;
                        }
                    }
                    (ButtonStage::Hold, None) => {
                        button_state.stage = ButtonStage::Release;
                    }
                    (ButtonStage::Release, _) => {
                        self.state = None;
                    }
                    _ => {}
                }
            }
            _ => {}
        }
    }
}

} // verus!
