//! Tunable configuration values, the activation state machine, and the
//! single-slot pending-update protocol.
//!
//! Every numeric value is bounded: it carries a default, a minimum, a maximum
//! and a fixed step, and an adjustment clamps at the bounds instead of
//! overshooting them. Mutation of the configuration happens in exactly one
//! place, [`SystemConfig::update`], which drains the pending-update slot and
//! applies at most one effect per call.

use vstd::prelude::*;

verus! {

/// Default amount of time in minutes which the system should be activated
pub const DEFAULT_ACTIVATE_MINS: u16 = 10;
/// Default minimum amount of light required for the system to potentially activate
pub const DEFAULT_MIN_LIGHT: u16 = 100;
/// Default minimum amount of moisture required for the system to potentially activate
pub const DEFAULT_MIN_MOISTURE: u16 = 100;

/// The shortest amount of time in minutes that can be configured for the system activation time
pub const ACTIVATION_TIME_MIN: u16 = 5;
/// The longest amount of time in minutes that can be configured for the system activation time
pub const ACTIVATION_TIME_MAX: u16 = 60;
/// The smallest minimum value for available light
pub const MIN_LIGHT_MIN: u16 = 0;
/// The largest minimum value for available light
pub const MIN_LIGHT_MAX: u16 = 1050;
/// The smallest minimum value for moisture
pub const MIN_MOISTURE_MIN: u16 = 0;
/// The largest minimum value for moisture
pub const MIN_MOISTURE_MAX: u16 = 1050;

/// Amount in minutes to increment the activation time by
pub const ACTIVATION_TIME_INCREMENT: u16 = 5;
/// Amount to increment the minimum light value by
pub const MIN_LIGHT_INCREMENT: u16 = 25;
/// Amount to increment the minimum moisture value by
pub const MIN_MOISTURE_INCREMENT: u16 = 25;

/// Display representation of a value in [`SystemConfig`]
#[derive(Clone, Copy, Debug, PartialEq, Eq, Structural)]
pub enum SystemValue {
    /// Activation time minutes
    Time(u16),
    /// Minimum light value
    Light(u16),
    /// Minimum moisture value
    Moisture(u16),
    /// Activation suspended
    Suspend(ActivationState),
    /// Activated
    Activate(ActivationState),
}

/// Represents a future change to a value in [`SystemConfig`]
#[derive(Clone, Copy, Debug, PartialEq, Eq, Structural)]
pub enum UpdateSystemValue {
    /// Update activation time according to the [`ValueAction`] variant
    Time(ValueAction),
    /// Update the minimum light value according to the [`ValueAction`] variant
    Light(ValueAction),
    /// Update the minimum moisture value according to the [`ValueAction`] variant
    Moisture(ValueAction),
    /// Put the system in the activated state
    Activate,
    /// Put the system in the suspended state
    Suspend,
    /// Move the activation state to the next logical state
    ActivationState,
    /// Reset [`SystemConfig`]
    Reset,
}

/// Type of action to perform for the [`SystemConfig`] update
#[derive(Clone, Copy, Debug, PartialEq, Eq, Structural)]
pub enum ValueAction {
    /// Increment the value
    Increment,
    /// Decrement the value
    Decrement,
}

/// System state of activation
#[derive(Clone, Copy, Debug, PartialEq, Eq, Structural)]
pub enum ActivationState {
    /// Activating - The next update will put the system into the activated state.
    ///
    /// Helper variant to handle moving to the correct state from menu actions.
    Activating,
    /// Currently activated - No sensor readings are performed
    Activated,
    /// Waiting to be activated - Sensor readings are being performed
    Waiting,
    /// Suspending - The next update will put the system into suspended state.
    ///
    /// Helper variant to handle moving to the correct state from menu actions.
    Suspending,
    /// Suspended - No sensor readings are performed
    Suspended,
}

impl ActivationState {
    /// Whether the system is currently being activated
    pub fn is_activating(&self) -> (r: bool)
        ensures
            r == (*self is Activating),
    {
        matches!(self, Self::Activating)
    }

    /// Whether the system is currently activated
    pub fn is_activated(&self) -> (r: bool)
        ensures
            r == (*self is Activated),
    {
        matches!(self, Self::Activated)
    }

    /// Whether the system is currently being suspended
    pub fn is_suspending(&self) -> (r: bool)
        ensures
            r == (*self is Suspending),
    {
        matches!(self, Self::Suspending)
    }

    /// Whether the system is currently suspended
    pub fn is_suspended(&self) -> (r: bool)
        ensures
            r == (*self is Suspended),
    {
        matches!(self, Self::Suspended)
    }

    /// Whether the system is currently waiting
    pub fn is_waiting(&self) -> (r: bool)
        ensures
            r == (*self is Waiting),
    {
        matches!(self, Self::Waiting)
    }
}

/// The state the activation machine moves to from `s` when an
/// [`UpdateSystemValue::ActivationState`] request is applied.
///
/// The table is total and deterministic: being a total function, it gives
/// every state exactly one next state (see [`lemma_activation_table`]).
pub open spec fn next_activation(s: ActivationState) -> ActivationState {
    match s {
        ActivationState::Suspending => ActivationState::Suspended,
        ActivationState::Suspended => ActivationState::Waiting,
        ActivationState::Activating => ActivationState::Activated,
        ActivationState::Activated => ActivationState::Waiting,
        ActivationState::Waiting => ActivationState::Activated,
    }
}

/// The state after an [`UpdateSystemValue::Activate`] toggle: request
/// activation unless it is already requested or reached, else cancel.
pub open spec fn activate_toggled(s: ActivationState) -> ActivationState {
    if s is Activating || s is Activated {
        ActivationState::Waiting
    } else {
        ActivationState::Activating
    }
}

/// The state after an [`UpdateSystemValue::Suspend`] toggle: request
/// suspension unless it is already requested or reached, else cancel.
pub open spec fn suspend_toggled(s: ActivationState) -> ActivationState {
    if s is Suspending || s is Suspended {
        ActivationState::Waiting
    } else {
        ActivationState::Suspending
    }
}

/// One bounded adjustment of `current` by `step`, clamped so the result
/// always lands exactly on `max` or `min` instead of overshooting.
pub open spec fn adjusted(current: u16, step: u16, min: u16, max: u16, action: ValueAction) -> u16 {
    match action {
        ValueAction::Increment => if current >= max - step {
            max
        } else {
            (current + step) as u16
        },
        ValueAction::Decrement => if current <= min + step {
            min
        } else {
            (current - step) as u16
        },
    }
}

/// `k` repeated bounded adjustments of `current`.
pub open spec fn adjusted_times(
    current: u16,
    step: u16,
    min: u16,
    max: u16,
    action: ValueAction,
    k: nat,
) -> u16
    decreases k,
{
    if k == 0 {
        current
    } else {
        adjusted(adjusted_times(current, step, min, max, action, (k - 1) as nat), step, min, max, action)
    }
}

/// One bounded adjustment, shared by all three numeric configuration fields.
///
/// Increment: if `current + step` would reach or exceed `max`, clamp to
/// `max`; otherwise add `step`. Decrement is the mirror image against `min`.
pub fn adjust_value(current: u16, step: u16, min: u16, max: u16, action: ValueAction) -> (r: u16)
    requires
        step <= max,
        min + step <= u16::MAX,
    ensures
        r == adjusted(current, step, min, max, action),
{
    match action {
        ValueAction::Increment => {
            let max_diff = max - step;
            if current >= max_diff {
                max
            } else {
                current + step
            }
        }
        ValueAction::Decrement => {
            let min_diff = min + step;
            if current <= min_diff {
                min
            } else {
                current - step
            }
        }
    }
}

impl UpdateSystemValue {
    /// The update that a [`ValueAction`] on a displayed [`SystemValue`] asks for.
    pub open spec fn of_value(system_value: SystemValue, action: ValueAction) -> UpdateSystemValue {
        match system_value {
            SystemValue::Time(_) => UpdateSystemValue::Time(action),
            SystemValue::Light(_) => UpdateSystemValue::Light(action),
            SystemValue::Moisture(_) => UpdateSystemValue::Moisture(action),
            SystemValue::Suspend(_) => UpdateSystemValue::Suspend,
            SystemValue::Activate(_) => UpdateSystemValue::Activate,
        }
    }

    /// Get a new [`UpdateSystemValue`] from a [`SystemValue`]
    pub fn from_value(system_value: &SystemValue, action: ValueAction) -> (r: Self)
        ensures
            r == UpdateSystemValue::of_value(*system_value, action),
    {
        match system_value {
            SystemValue::Time(_) => Self::Time(action),
            SystemValue::Light(_) => Self::Light(action),
            SystemValue::Moisture(_) => Self::Moisture(action),
            SystemValue::Suspend(_) => Self::Suspend,
            SystemValue::Activate(_) => Self::Activate,
        }
    }

    /// The [`SystemValue`] that displays the configuration field this update
    /// targets, read from `c`; `None` for a full reset, which has no single row.
    pub open spec fn value_of(self, c: SystemConfig) -> Option<SystemValue> {
        match self {
            UpdateSystemValue::Time(_) => Some(SystemValue::Time(c.activate_mins)),
            UpdateSystemValue::Light(_) => Some(SystemValue::Light(c.min_light)),
            UpdateSystemValue::Moisture(_) => Some(SystemValue::Moisture(c.min_moisture)),
            UpdateSystemValue::Activate => Some(SystemValue::Activate(c.activation_state)),
            UpdateSystemValue::Suspend => Some(SystemValue::Suspend(c.activation_state)),
            UpdateSystemValue::ActivationState => Some(SystemValue::Activate(c.activation_state)),
            UpdateSystemValue::Reset => None,
        }
    }

    /// Get a new [`SystemValue`] from the current [`UpdateSystemValue`]
    pub fn to_value(&self, system_config: &SystemConfig) -> (r: Option<SystemValue>)
        ensures
            r == self.value_of(*system_config),
    {
        match self {
            Self::Time(_) => Some(SystemValue::Time(system_config.activate_mins)),
            Self::Light(_) => Some(SystemValue::Light(system_config.min_light)),
            Self::Moisture(_) => Some(SystemValue::Moisture(system_config.min_moisture)),
            Self::Activate => Some(SystemValue::Activate(system_config.activation_state)),
            Self::Suspend => Some(SystemValue::Suspend(system_config.activation_state)),
            Self::ActivationState => Some(SystemValue::Activate(system_config.activation_state)),
            Self::Reset => None,
        }
    }

    /// Get a reference to the inner [`ValueAction`]
    pub fn inner_as_ref(&self) -> (r: Option<&ValueAction>)
        ensures
            match *self {
                UpdateSystemValue::Time(a) => r == Some(&a),
                UpdateSystemValue::Light(a) => r == Some(&a),
                UpdateSystemValue::Moisture(a) => r == Some(&a),
                _ => r is None,
            },
    {
        match self {
            Self::Time(action) => Some(action),
            Self::Light(action) => Some(action),
            Self::Moisture(action) => Some(action),
            Self::Activate | Self::Suspend | Self::ActivationState | Self::Reset => None,
        }
    }
}

/// Configuration used to drive the system
#[derive(Debug)]
pub struct SystemConfig {
    /// How long the system should be activated for
    pub activate_mins: u16,
    /// Minimum amount of light required for the system to potentially activate
    pub min_light: u16,
    /// Minimum amount of moisture required for the system to potentially activate
    pub min_moisture: u16,
    /// Current activation state of the system
    pub activation_state: ActivationState,
    /// Indicates the next update, if any, to make for a value
    pub update: Option<UpdateSystemValue>,
}

/// The documented default configuration, in the waiting state, with an empty
/// pending-update slot.
pub open spec fn default_config() -> SystemConfig {
    SystemConfig {
        activate_mins: DEFAULT_ACTIVATE_MINS,
        min_light: DEFAULT_MIN_LIGHT,
        min_moisture: DEFAULT_MIN_MOISTURE,
        activation_state: ActivationState::Waiting,
        update: None,
    }
}

/// `c` with the pending-update slot overwritten by `u`: the slot holds at most
/// one request, and a newer request silently replaces an older one.
pub open spec fn enqueued(c: SystemConfig, u: UpdateSystemValue) -> SystemConfig {
    SystemConfig { update: Some(u), ..c }
}

/// The configuration after the single request `u` is applied to `c`.
/// The pending-update slot comes out empty: a request is consumed the instant
/// it is applied.
pub open spec fn applied(c: SystemConfig, u: UpdateSystemValue) -> SystemConfig {
    match u {
        UpdateSystemValue::Time(a) => SystemConfig {
            update: None,
            activate_mins: adjusted(
                c.activate_mins,
                ACTIVATION_TIME_INCREMENT,
                ACTIVATION_TIME_MIN,
                ACTIVATION_TIME_MAX,
                a,
            ),
            ..c
        },
        UpdateSystemValue::Light(a) => SystemConfig {
            update: None,
            min_light: adjusted(c.min_light, MIN_LIGHT_INCREMENT, MIN_LIGHT_MIN, MIN_LIGHT_MAX, a),
            ..c
        },
        UpdateSystemValue::Moisture(a) => SystemConfig {
            update: None,
            min_moisture: adjusted(
                c.min_moisture,
                MIN_MOISTURE_INCREMENT,
                MIN_MOISTURE_MIN,
                MIN_MOISTURE_MAX,
                a,
            ),
            ..c
        },
        UpdateSystemValue::ActivationState => SystemConfig {
            update: None,
            activation_state: next_activation(c.activation_state),
            ..c
        },
        UpdateSystemValue::Activate => SystemConfig {
            update: None,
            activation_state: activate_toggled(c.activation_state),
            ..c
        },
        UpdateSystemValue::Suspend => SystemConfig {
            update: None,
            activation_state: suspend_toggled(c.activation_state),
            ..c
        },
        UpdateSystemValue::Reset => default_config(),
    }
}

/// The configuration after one call of [`SystemConfig::update`]: the pending
/// request, if any, is taken out of the slot and applied exactly once.
pub open spec fn updated(c: SystemConfig) -> SystemConfig {
    match c.update {
        None => c,
        Some(u) => applied(c, u),
    }
}

impl SystemConfig {
    /// Create a new [`SystemConfig`] with default values
    pub fn new() -> (r: Self)
        ensures
            r == default_config(),
    {
        Self {
            activate_mins: DEFAULT_ACTIVATE_MINS,
            min_light: DEFAULT_MIN_LIGHT,
            min_moisture: DEFAULT_MIN_MOISTURE,
            activation_state: ActivationState::Waiting,
            update: None,
        }
    }

    /// Reset to defaults.
    ///
    /// Unconditional: whatever the prior values and activation state, the
    /// result holds the documented defaults and is waiting. The pending-update
    /// slot is left as it was.
    pub fn reset(&mut self)
        ensures
            *final(self) == (SystemConfig { update: old(self).update, ..default_config() }),
    {
        self.activate_mins = DEFAULT_ACTIVATE_MINS;
        self.min_light = DEFAULT_MIN_LIGHT;
        self.min_moisture = DEFAULT_MIN_MOISTURE;
        self.activation_state = ActivationState::Waiting;
    }

    /// Set an update action to be performed on the next call to
    /// [`SystemConfig::update`], overwriting any request already pending.
    pub fn update_next_tick(&mut self, update: UpdateSystemValue)
        ensures
            *final(self) == enqueued(*old(self), update),
    {
        self.update = Some(update);
    }

    /// Makes an update to a value if necessary.
    ///
    /// The single mutation point: takes the pending update (leaving the slot
    /// empty), applies exactly the one matching effect, and returns the
    /// consumed update so the caller can propagate it to the view layer.
    /// With an empty slot this is a no-op that returns `None`.
    pub fn update(&mut self) -> (r: Option<UpdateSystemValue>)
        ensures
            r == old(self).update,
            *final(self) == updated(*old(self)),
    {
        // Clear the slot first so that the next call doesn't perform another update.
        let update = self.update;
        self.update = None;
        match update {
            Some(UpdateSystemValue::Time(action)) => {
                self.activate_mins = adjust_value(
                    self.activate_mins,
                    ACTIVATION_TIME_INCREMENT,
                    ACTIVATION_TIME_MIN,
                    ACTIVATION_TIME_MAX,
                    action,
                );
            }
            Some(UpdateSystemValue::Light(action)) => {
                self.min_light = adjust_value(
                    self.min_light,
                    MIN_LIGHT_INCREMENT,
                    MIN_LIGHT_MIN,
                    MIN_LIGHT_MAX,
                    action,
                );
            }
            Some(UpdateSystemValue::Moisture(action)) => {
                self.min_moisture = adjust_value(
                    self.min_moisture,
                    MIN_MOISTURE_INCREMENT,
                    MIN_MOISTURE_MIN,
                    MIN_MOISTURE_MAX,
                    action,
                );
            }
            Some(UpdateSystemValue::ActivationState) => {
                self.activation_state = match self.activation_state {
                    ActivationState::Suspending => ActivationState::Suspended,
                    ActivationState::Suspended => ActivationState::Waiting,
                    ActivationState::Activating => ActivationState::Activated,
                    ActivationState::Activated => ActivationState::Waiting,
                    ActivationState::Waiting => ActivationState::Activated,
                };
            }
            Some(UpdateSystemValue::Activate) => {
                let is_activated = self.activation_state.is_activating()
                    || self.activation_state.is_activated();
                if !is_activated {
                    self.activation_state = ActivationState::Activating;
                } else {
                    self.activation_state = ActivationState::Waiting;
                }
            }
            Some(UpdateSystemValue::Suspend) => {
                let is_suspended = self.activation_state.is_suspending()
                    || self.activation_state.is_suspended();
                if !is_suspended {
                    self.activation_state = ActivationState::Suspending;
                } else {
                    self.activation_state = ActivationState::Waiting;
                }
            }
            Some(UpdateSystemValue::Reset) => {
                self.reset();
            }
            None => {}
        }
        update
    }
}

/// The activation-state transition table is total and deterministic: the
/// machine is a total function on states, so every state has exactly one next
/// state under [`UpdateSystemValue::ActivationState`], and it is the one the
/// table gives.
pub proof fn lemma_activation_table()
    ensures
        next_activation(ActivationState::Suspending) == ActivationState::Suspended,
        next_activation(ActivationState::Suspended) == ActivationState::Waiting,
        next_activation(ActivationState::Activating) == ActivationState::Activated,
        next_activation(ActivationState::Activated) == ActivationState::Waiting,
        next_activation(ActivationState::Waiting) == ActivationState::Activated,
{
}

/// Enqueueing update `x` and then update `y` before a tick applies only `y`'s
/// effect: the slot holds at most one request, so the outcome — both the new
/// configuration and the consumed request handed back — is the same as if
/// only `y` had been enqueued.
pub proof fn lemma_pending_update_overwrite(c: SystemConfig, x: UpdateSystemValue, y: UpdateSystemValue)
    ensures
        enqueued(enqueued(c, x), y) == enqueued(c, y),
        updated(enqueued(enqueued(c, x), y)) == updated(enqueued(c, y)),
        enqueued(enqueued(c, x), y).update == enqueued(c, y).update,
{
}

/// Repeated decrement never goes below `min`, and lands exactly on it: `k`
/// decrements from `current` give `current - k * step`, clamped to `min` the
/// step it would pass it. In particular `min` is reached in an exact,
/// predictable number of steps.
pub proof fn lemma_repeated_decrement(current: u16, step: u16, min: u16, max: u16, k: nat)
    requires
        min <= current <= max,
        1 <= step,
    ensures
        adjusted_times(current, step, min, max, ValueAction::Decrement, k) == if current - k * step
            >= min {
            (current - k * step) as u16
        } else {
            min
        },
        min <= adjusted_times(current, step, min, max, ValueAction::Decrement, k) <= max,
    decreases k,
{
    if k > 0 {
        lemma_repeated_decrement(current, step, min, max, (k - 1) as nat);
        assert(k * step == (k - 1) * step + step) by (nonlinear_arith)
            requires k >= 1;
        assert((k - 1) * step >= 0) by (nonlinear_arith)
            requires k >= 1 && step >= 0;
    } else {
        assert(k * step == 0) by (nonlinear_arith)
            requires k == 0;
    }
}

/// Repeated increment never exceeds `max`, and lands exactly on it: `k`
/// increments from `current` give `current + k * step`, clamped to `max` the
/// step it would reach or pass it. In particular `max` is reached in an
/// exact, predictable number of steps.
pub proof fn lemma_repeated_increment(current: u16, step: u16, min: u16, max: u16, k: nat)
    requires
        min <= current <= max,
        1 <= step,
    ensures
        adjusted_times(current, step, min, max, ValueAction::Increment, k) == if current + k * step
            <= max {
            (current + k * step) as u16
        } else {
            max
        },
        min <= adjusted_times(current, step, min, max, ValueAction::Increment, k) <= max,
    decreases k,
{
    if k > 0 {
        lemma_repeated_increment(current, step, min, max, (k - 1) as nat);
        assert(k * step == (k - 1) * step + step) by (nonlinear_arith)
            requires k >= 1;
        assert((k - 1) * step >= 0) by (nonlinear_arith)
            requires k >= 1 && step >= 0;
    } else {
        assert(k * step == 0) by (nonlinear_arith)
            requires k == 0;
    }
}

} // verus!
