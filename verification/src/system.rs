//! Logic for coordinating sensor inputs, the menu, the clock and the valve.
//!
//! [`System::tick`] runs once per main-loop iteration. Its fixed sequence:
//! sample the debouncer, hand any button event to the menu (which may enqueue
//! a pending update), reconcile the clock with the activation state, enqueue
//! the automatic state transitions that the clock or the sensors call for,
//! apply the pending update exactly once, propagate the applied change back
//! to the menu rows, and finally reconcile the valve relay with the
//! activation state. The surrounding program samples the hardware and hands
//! this module plain readings.

use vstd::prelude::*;

use crate::config::{updated, ActivationState, SystemConfig, UpdateSystemValue};
use crate::control_pad::{classified, debounced, ControlPad};
use crate::display::{blank_grid, written, Display};
use crate::menu::{
    press_update, refresh_cells, rendered_cells, selector_cells, slot_of, synced_item,
    synced_items, wrapped, Menu,
};
use crate::timer::Timer;

verus! {

/// Whether fresh sensor readings call for irrigation: both the moisture and
/// the light reading lie strictly below their configured minimums.
pub open spec fn sensors_low(c: SystemConfig, light: u16, moisture: u16) -> bool {
    moisture < c.min_moisture && light < c.min_light
}

/// Whether the tick restarts the clock: a suspension was requested, or the
/// system is irrigating while the clock still stands — either way a fresh
/// timing window begins.
pub open spec fn restarts_timer(s: ActivationState, paused: bool) -> bool {
    s is Suspending || (s is Activated && paused)
}

/// Whether the tick pauses the clock: the system is idle and the clock has
/// not been paused yet.
pub open spec fn pauses_timer(s: ActivationState, paused: bool) -> bool {
    s is Waiting && !paused
}

/// Whether the tick enqueues an automatic state transition: a requested
/// suspension is carried out, an expired suspension or irrigation window is
/// ended, or low sensor readings begin irrigation from the waiting state.
///
/// The one configured duration bounds both the irrigation and the suspension
/// window — a known simplification standing in for a dedicated
/// suspension-duration value.
pub open spec fn auto_advance(c: SystemConfig, elapsed: u16, light: u16, moisture: u16) -> bool {
    ||| c.activation_state is Suspending
    ||| (c.activation_state is Suspended && elapsed >= c.activate_mins)
    ||| (c.activation_state is Activated && elapsed >= c.activate_mins)
    ||| (c.activation_state is Waiting && sensors_low(c, light, moisture))
}

/// Holds the state of the valve relay output
pub struct SystemPeripherals {
    /// Solenoid valve relay: `true` when the output is driven high
    pub valve_on: bool,
}

impl SystemPeripherals {
    /// Create a new [`SystemPeripherals`] with the valve off
    pub fn new() -> (r: Self)
        ensures
            !r.valve_on,
    {
        Self { valve_on: false }
    }

    /// Toggles valve activation if necessary: on iff the system is activated
    pub fn update(&mut self, system_config: &SystemConfig)
        ensures
            final(self).valve_on == (system_config.activation_state is Activated),
    {
        if self.valve_on && !system_config.activation_state.is_activated() {
            // The valve is on but the system is not activated: turn it off.
            self.valve_on = false;
        } else if !self.valve_on && system_config.activation_state.is_activated() {
            // The valve is off but the system is activated: turn it on.
            self.valve_on = true;
        }
    }

    /// Whether the valve should be turned on, given fresh sensor readings
    pub fn should_activate(&self, system_config: &SystemConfig, light: u16, moisture: u16) -> (r:
        bool)
        ensures
            r == sensors_low(*system_config, light, moisture),
    {
        moisture < system_config.min_moisture && light < system_config.min_light
    }
}

/// The first header row's text
pub open spec fn header_title() -> Seq<u8> {
    seq![71, 97, 114, 100, 101, 110, 32, 83, 121, 115, 116, 101, 109]  /* "Garden System" */
}

/// The second header row's text
pub open spec fn header_version() -> Seq<u8> {
    seq![118, 48, 46, 49]  /* "v0.1" */
}

/// How one tick takes the system from `pre` to `post`, given the tick's raw
/// button reading and the two sensor readings.
pub open spec fn tick_rel(pre: System, post: System, reading: u16, light: u16, moisture: u16) -> bool {
    // The debouncer classifies the reading and advances one step.
    let pad = debounced(pre.control_pad.state, classified(reading));
    // A tracked button reaches the menu: a confirmed Select moves the
    // selector, a confirmed Right or Left enqueues the selected item's
    // request into the pending-update slot.
    let idx0 = pre.menu.current_idx as int;
    let select = match pad {
        Some(bs) => bs.stage is Release && bs.button is Select,
        None => false,
    };
    let idx1 = if select { wrapped(idx0) } else { idx0 };
    let pending1 = match pad {
        Some(bs) => if bs.stage is Release {
            match press_update(pre.menu.items@, idx0, bs.button) {
                Some(u) => Some(u),
                None => pre.system_config.update,
            }
        } else {
            pre.system_config.update
        },
        None => pre.system_config.update,
    };
    let cells1 = if select {
        selector_cells(pre.display.cells@, idx0, idx1)
    } else {
        pre.display.cells@
    };
    // The clock is restarted or paused according to the activation state.
    let paused0 = pre.timer.paused();
    let state0 = pre.system_config.activation_state;
    let restart = restarts_timer(state0, paused0);
    let paused1 = if restart {
        false
    } else if pauses_timer(state0, paused0) {
        true
    } else {
        paused0
    };
    let elapsed = if restart { 0u16 } else { pre.timer.seconds() };
    // The automatic transitions overwrite whatever a button enqueued.
    let pending2 = if auto_advance(pre.system_config, elapsed, light, moisture) {
        Some(UpdateSystemValue::ActivationState)
    } else {
        pending1
    };
    // The pending update is drained and applied exactly once.
    let cfg = updated(SystemConfig { update: pending2, ..pre.system_config });
    // The applied update reaches the menu rows: a state change refreshes both
    // the suspend and the activate rows, a value change refreshes its own
    // row, a reset redraws the whole menu.
    let menu_rel = match pending2 {
        None => post.menu.current_idx == idx1 && post.menu.items@ == pre.menu.items@
            && post.display.cells@ == cells1,
        Some(u) => if u is Suspend || u is Activate || u is ActivationState {
            post.menu.current_idx == idx1 && post.menu.items@ == pre.menu.items@.update(
                4,
                synced_item(4, cfg),
            ).update(3, synced_item(3, cfg)) && post.display.cells@ == refresh_cells(
                refresh_cells(cells1, 4, synced_item(4, cfg), idx1),
                3,
                synced_item(3, cfg),
                idx1,
            )
        } else if u is Reset {
            post.menu.current_idx == 0 && post.menu.items@ == synced_items(cfg)
                && post.display.cells@ == rendered_cells(cells1, post.menu)
        } else {
            match slot_of(u) {
                Some(m) => post.menu.current_idx == idx1 && post.menu.items@
                    == pre.menu.items@.update(m, synced_item(m, cfg)) && post.display.cells@
                    == refresh_cells(cells1, m, synced_item(m, cfg), idx1),
                None => false,
            }
        },
    };
    &&& post.control_pad.state == pad
    &&& post.system_config == cfg
    &&& post.timer.paused() == paused1
    &&& post.timer.seconds() == (if restart { 0u16 } else { pre.timer.seconds() })
    &&& post.timer.millis() == (if restart { 0u16 } else { pre.timer.millis() })
    &&& menu_rel
    &&& post.peripherals.valve_on == (cfg.activation_state is Activated)
}

/// Central type which connects the components of the system
pub struct System {
    /// Relevant peripherals
    pub peripherals: SystemPeripherals,
    /// Menu
    pub menu: Menu,
    /// Display controller
    pub display: Display,
    /// Buttons
    pub control_pad: ControlPad,
    /// System configuration
    pub system_config: SystemConfig,
    /// Elapsed-time counter, advanced by the interrupt source
    pub timer: Timer,
}

impl System {
    /// Every component's own invariant holds.
    pub open spec fn wf(&self) -> bool {
        &&& self.menu.wf()
        &&& self.display.wf()
        &&& self.timer.wf()
    }

    /// Wire up a fresh system: configuration at defaults, menu derived from
    /// it, clock zeroed and paused.
    pub fn new(peripherals: SystemPeripherals, display: Display, control_pad: ControlPad) -> (r:
        Self)
        requires
            display.wf(),
        ensures
            r.wf(),
            r.peripherals == peripherals,
            r.display == display,
            r.control_pad == control_pad,
            r.system_config == crate::config::default_config(),
            r.menu.current_idx == 0,
            r.menu.items@ == synced_items(crate::config::default_config()),
            r.timer.paused(),
            r.timer.millis() == 0,
            r.timer.seconds() == 0,
    {
        let system_config = SystemConfig::new();
        let menu = Menu::new(&system_config);

        Self { peripherals, display, control_pad, menu, system_config, timer: Timer::new() }
    }

    /// Setup the display and render the system header and the full menu
    pub fn init(&mut self)
        requires
            old(self).wf(),
        ensures
            final(self).wf(),
            final(self).display.cells@ == rendered_cells(
                written(written(blank_grid(), 0, 0, header_title()), 1, 0, header_version()),
                final(self).menu,
            ),
            final(self).menu == old(self).menu,
            final(self).system_config == old(self).system_config,
            final(self).control_pad == old(self).control_pad,
            final(self).peripherals == old(self).peripherals,
            final(self).timer == old(self).timer,
    {
        self.display.init();
        self.render_header();
        self.menu.render(&mut self.display);
    }

    /// Render the system header
    fn render_header(&mut self)
        requires
            old(self).wf(),
        ensures
            final(self).wf(),
            final(self).display.cells@ == written(
                written(old(self).display.cells@, 0, 0, header_title()),
                1,
                0,
                header_version(),
            ),
            final(self).menu == old(self).menu,
            final(self).system_config == old(self).system_config,
            final(self).control_pad == old(self).control_pad,
            final(self).peripherals == old(self).peripherals,
            final(self).timer == old(self).timer,
    {
        self.display.set_position(0, 0);
        let mut title: Vec<u8> = Vec::new();
        title.push(71);  // 'G'
        title.push(97);  // 'a'
        title.push(114);  // 'r'
        title.push(100);  // 'd'
        title.push(101);  // 'e'
        title.push(110);  // 'n'
        title.push(32);  // ' '
        title.push(83);  // 'S'
        title.push(121);  // 'y'
        title.push(115);  // 's'
        title.push(116);  // 't'
        title.push(101);  // 'e'
        title.push(109);  // 'm'
        proof {
            assert(title@ =~= header_title());
        }
        self.display.write_text(&title);
        self.display.set_position(0, 1);
        let mut version: Vec<u8> = Vec::new();
        version.push(118);  // 'v'
        version.push(48);  // '0'
        version.push(46);  // '.'
        version.push(49);  // '1'
        proof {
            assert(version@ =~= header_version());
        }
        self.display.write_text(&version);
    }

    /// Update the state of the system: one full orchestration tick, fed this
    /// tick's raw button reading and the two fresh sensor readings.
    pub fn tick(&mut self, button_reading: u16, light: u16, moisture: u16)
        requires
            old(self).wf(),
        ensures
            final(self).wf(),
            tick_rel(*old(self), *final(self), button_reading, light, moisture),
    {
        // Check for button presses.
        self.control_pad.update(button_reading);

        // If a button was pressed, tell the menu about it.
        if let Some(button_state) = self.control_pad.state {
            self.menu.on_press(&button_state, &mut self.display, &mut self.system_config);
        }

        let timer_paused = self.timer.is_paused();

        // If the system is either suspending, or activated while the clock is
        // still paused, then reset the clock and resume timing: a fresh
        // timing window starts.
        let should_reset_timer = self.system_config.activation_state.is_suspending() || (
        self.system_config.activation_state.is_activated() && timer_paused);
        if should_reset_timer {
            self.timer.reset();
            self.timer.resume();
        }

        // If the system is in a waiting state but the clock hasn't been
        // paused yet, pause it: no timing is needed while idle.
        if self.system_config.activation_state.is_waiting() && !timer_paused {
            self.timer.pause();
        }

        // If the system is suspending, make sure it is moved to the suspended
        // state.
        if self.system_config.activation_state.is_suspending() {
            self.system_config.update_next_tick(UpdateSystemValue::ActivationState);
        }

        if self.system_config.activation_state.is_suspended() {
            // If the system is suspended and the clock has reached the
            // configured bound, move it back to the waiting state. The
            // activation duration stands in for a dedicated suspension
            // duration, and is compared against elapsed seconds as it is.
            if self.timer.elapsed_s() >= self.system_config.activate_mins {
                self.system_config.update_next_tick(UpdateSystemValue::ActivationState);
            }
        } else {
            if self.system_config.activation_state.is_activated() {
                // If the system is activated and the clock has reached the
                // configured bound, move it back to the waiting state.
                if self.timer.elapsed_s() >= self.system_config.activate_mins {
                    self.system_config.update_next_tick(UpdateSystemValue::ActivationState);
                }
            } else if self.system_config.activation_state.is_waiting()
                && self.peripherals.should_activate(&self.system_config, light, moisture) {
                // If the sensors indicate that the system should be
                // activated, begin irrigation from the waiting state.
                self.system_config.update_next_tick(UpdateSystemValue::ActivationState);
            }
        }

        // Perform the update to the configuration if necessary and...
        if let Some(update_value) = self.system_config.update() {
            match update_value {
                UpdateSystemValue::Suspend
                | UpdateSystemValue::Activate
                | UpdateSystemValue::ActivationState => {
                    // Any update to the activation state refreshes both the
                    // suspend and activate rows so that they stay consistent
                    // with the configuration state.
                    self.menu.update(
                        UpdateSystemValue::Suspend,
                        &self.system_config,
                        &mut self.display,
                    );
                    self.menu.update(
                        UpdateSystemValue::Activate,
                        &self.system_config,
                        &mut self.display,
                    );
                }
                _ => {
                    // Otherwise, refresh the relevant menu row.
                    self.menu.update(update_value, &self.system_config, &mut self.display);
                }
            }
        }

        // Toggle the relay if necessary.
        self.peripherals.update(&self.system_config);
    }
}

} // verus!
