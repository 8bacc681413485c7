//! The input tasks' debounce state machine.
//!
//! One task runs per physical button, from a bounded pool.  Each carries
//! the fixed command tag of its button and watches the button's digital
//! line: on a rising edge it publishes its command into the command channel
//! and debounces; on a falling edge it only debounces.  The task runs
//! forever and has no error path — a malfunctioning pin simply never
//! transitions.  This module is the decision logic of that loop; reading
//! the physical pin and sleeping stay outside the crate.

use vstd::prelude::*;

use crate::commands::GatewayCommand;

verus! {

/// How long a task suspends after each detected edge, to suppress spurious
/// re-triggers.
pub const DEBOUNCE_MILLIS: u64 = 100;

/// The two states of one button's monitor: `Idle` while the pin reads
/// logically low, `Pressed` while it reads high.
#[derive(Clone, Copy, Debug, PartialEq, Eq, Structural)]
pub enum PinState {
    Idle,
    Pressed,
}

/// What one observation of the pin asks the owning task to do.
#[derive(Clone, Copy, Debug, PartialEq, Eq, Structural)]
pub struct InputEffect {
    /// The command to publish into the command channel, present exactly on
    /// a rising edge: one publication per detected press, never one per
    /// release.
    pub publish: Option<GatewayCommand>,
    /// Whether to suspend for [`DEBOUNCE_MILLIS`] before reading the pin
    /// again; set exactly after an edge in either direction.
    pub debounce: bool,
}

/// One button's monitor: its debounce state and the fixed command tag of
/// the button it watches.
#[derive(Clone, Copy, Debug, PartialEq, Eq, Structural)]
pub struct InputMonitor {
    pub state: PinState,
    pub command: GatewayCommand,
}

impl InputMonitor {
    /// A monitor for one button, starting idle.
    pub fn new(command: GatewayCommand) -> (m: InputMonitor)
        ensures
            m.state is Idle,
            m.command == command,
    {
        InputMonitor { state: PinState::Idle, command }
    }

    /// Observe one pin level.  A rising edge (`Idle`, pin high) publishes
    /// this monitor's command and debounces; a falling edge (`Pressed`,
    /// pin low) only debounces; a steady level does nothing.  The new
    /// state always follows the pin: `Pressed` when high, `Idle` when low.
    pub fn step(&mut self, level_high: bool) -> (effect: InputEffect)
        ensures
            final(self).command == old(self).command,
            final(self).state == (if level_high { PinState::Pressed } else { PinState::Idle }),
            effect.publish == (if old(self).state is Idle && level_high {
                Some(old(self).command)
            } else {
                None::<GatewayCommand>
            }),
            effect.debounce == ((old(self).state is Idle && level_high)
                || (old(self).state is Pressed && !level_high)),
    {
        match (self.state, level_high) {
            (PinState::Idle, true) => {
                self.state = PinState::Pressed;
                InputEffect { publish: Some(self.command), debounce: true }
            }
            (PinState::Pressed, false) => {
                self.state = PinState::Idle;
                InputEffect { publish: None, debounce: true }
            }
            (PinState::Idle, false) => {
                InputEffect { publish: None, debounce: false }
            }
            (PinState::Pressed, true) => {
                InputEffect { publish: None, debounce: false }
            }
        }
    }
}

} // verus!
