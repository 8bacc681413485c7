//! The command values that cross from the input tasks to the display task.

use vstd::prelude::*;

verus! {

/// A user-input event. Each variant corresponds to exactly one physical
/// button; a value is created when that button's press is detected, carried
/// through the command channel, and consumed by the display task.
#[allow(non_camel_case_types)]
#[derive(Clone, Copy, Debug, PartialEq, Eq, Structural)]
pub enum GatewayCommand {
    /// Toggle the display's inversion flag.
    COMMAND0,
    /// Raise the display brightness one step.
    COMMAND1,
    /// Lower the display brightness one step.
    COMMAND2,
}

} // verus!
