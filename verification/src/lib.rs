//! Core of a self-contained irrigation controller.
//!
//! The controller reads light and moisture sensors, lets an operator tune
//! thresholds and an activation duration through a four-button menu on a
//! small character display, and drives a single valve relay accordingly.
//!
//! This crate holds the verified logic: the activation state machine and its
//! bounded configuration values ([`config`]), the button debouncer
//! ([`control_pad`]), the menu projection of the configuration onto display
//! rows ([`menu`]), the character-grid display model ([`display`]), the
//! interrupt-driven elapsed-time counter ([`timer`]), and the per-tick
//! orchestration that connects them ([`system`]). Hardware access (analog
//! sampling, the panel bus, the interrupt source) lives outside this crate
//! and hands these modules plain values.

pub mod config;
pub mod control_pad;
pub mod display;
pub mod menu;
pub mod system;
pub mod timer;
