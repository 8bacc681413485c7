//! The task sets of the two core runtimes.
//!
//! Each physical core runs one cooperative scheduler.  Peripherals are
//! initialized before any task is spawned, and each peripheral handle is
//! moved once, at construction time, into the single task that owns it
//! forever.  This module fixes which tasks each core spawns and in what
//! order; constructing the peripherals and running the schedulers stays
//! outside the crate.

use vstd::prelude::*;

use crate::commands::GatewayCommand;

verus! {

/// One independently scheduled task of the gateway.
#[derive(Clone, Copy, Debug, PartialEq, Eq, Structural)]
pub enum GatewayTask {
    /// Owns the display panel; consumes the command channel.
    Display,
    /// Watches one button and publishes the given command on each press.
    Input(GatewayCommand),
    /// Owns the radio transceiver.
    Radio,
    /// Owns the removable-storage device.
    Storage,
}

/// The task set of core 0, in spawn order: the display task, then one
/// input task per physical button, each bound to that button's command.
pub fn core0_task_plan() -> (plan: Vec<GatewayTask>)
    ensures
        plan@ == seq![
            GatewayTask::Display,
            GatewayTask::Input(GatewayCommand::COMMAND0),
            GatewayTask::Input(GatewayCommand::COMMAND1),
            GatewayTask::Input(GatewayCommand::COMMAND2),
        ],
{
    let mut plan: Vec<GatewayTask> = Vec::new();
    plan.push(GatewayTask::Display);
    plan.push(GatewayTask::Input(GatewayCommand::COMMAND0));
    plan.push(GatewayTask::Input(GatewayCommand::COMMAND1));
    plan.push(GatewayTask::Input(GatewayCommand::COMMAND2));
    proof {
        assert(plan@ =~= seq![
            GatewayTask::Display,
            GatewayTask::Input(GatewayCommand::COMMAND0),
            GatewayTask::Input(GatewayCommand::COMMAND1),
            GatewayTask::Input(GatewayCommand::COMMAND2),
        ]);
    }
    plan
}

/// The task set of core 1, in spawn order: the radio task, then the
/// storage task.  The two are islands: they share no state and exchange no
/// messages.
pub fn core1_task_plan() -> (plan: Vec<GatewayTask>)
    ensures
        plan@ == seq![GatewayTask::Radio, GatewayTask::Storage],
{
    let mut plan: Vec<GatewayTask> = Vec::new();
    plan.push(GatewayTask::Radio);
    plan.push(GatewayTask::Storage);
    proof {
        assert(plan@ =~= seq![GatewayTask::Radio, GatewayTask::Storage]);
    }
    plan
}

} // verus!
