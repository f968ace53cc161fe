//! Pump actuation: `Idle`, then `Running` for a bounded time, then `Idle`.

use vstd::prelude::*;
use crate::channels::PumpChannel;
use crate::config::PUMP_MAX_DURATION_SECS;
use crate::types::PumpCommand;

verus! {

/// Where the pump task stands.
#[derive(Clone, Copy, Debug, PartialEq, Eq, Structural)]
pub enum PumpState {
    /// The pump is off and the task looks for a command.
    Idle,
    /// The pump was switched on for `secs` seconds.
    Running { secs: u16 },
}

/// What the pump task asks to be done next.
#[derive(Clone, Copy, Debug, PartialEq, Eq, Structural)]
pub enum PumpAction {
    /// Nothing to do until a command is published.
    AwaitCommand,
    /// Drive the output high, then let `secs` seconds pass.
    SwitchOn { secs: u16 },
    /// Drive the output low.
    SwitchOff,
}

/// The run time, in seconds, that a requested duration is cut down to.
pub open spec fn run_secs(requested: u16) -> u16 {
    if requested <= PUMP_MAX_DURATION_SECS {
        requested
    } else {
        PUMP_MAX_DURATION_SECS
    }
}

/// The step that the pump task takes from `state` when `pending` is what the
/// command mailbox holds.
pub open spec fn pump_step(state: PumpState, pending: Seq<PumpCommand>) -> (PumpState, PumpAction) {
    match state {
        PumpState::Idle => if pending.len() == 0 {
            (PumpState::Idle, PumpAction::AwaitCommand)
        } else {
            let secs = run_secs(pending.first().duration_secs);
            (PumpState::Running { secs }, PumpAction::SwitchOn { secs })
        },
        PumpState::Running { .. } => (PumpState::Idle, PumpAction::SwitchOff),
    }
}

/// What the step from `state` leaves in the command mailbox: an idle task
/// takes the command out, a running one does not look.
pub open spec fn pump_pending_after(state: PumpState, pending: Seq<PumpCommand>) -> Seq<PumpCommand> {
    match state {
        PumpState::Idle => Seq::empty(),
        PumpState::Running { .. } => pending,
    }
}

/// Cuts a requested run time down to the configured ceiling.
pub fn clamp_duration(requested: u16) -> (secs: u16)
    ensures
        secs == run_secs(requested),
{
    if requested <= PUMP_MAX_DURATION_SECS {
        requested
    } else {
        PUMP_MAX_DURATION_SECS
    }
}

/// One step of the pump task. From `Idle` it takes the pending command, if
/// there is one, and asks for the output to be switched on for the clamped
/// time. From `Running` it asks for the output to be switched off and goes
/// back to `Idle`, without looking at the mailbox.
pub fn pump_task(state: PumpState, commands: &mut PumpChannel) -> (step: (PumpState, PumpAction))
    ensures
        step == pump_step(state, old(commands)@),
        final(commands)@ == pump_pending_after(state, old(commands)@),
{
    match state {
        PumpState::Idle => match commands.try_receive() {
            None => (PumpState::Idle, PumpAction::AwaitCommand),
            Some(command) => {
                let secs = clamp_duration(command.duration_secs);
                (PumpState::Running { secs }, PumpAction::SwitchOn { secs })
            },
        },
        PumpState::Running { .. } => (PumpState::Idle, PumpAction::SwitchOff),
    }
}

/// Whatever a command asks for, the pump is switched on for the requested
/// time or the ceiling, whichever is less; and a running pump is always
/// switched off in the next step.
pub proof fn lemma_pump_runs_no_longer_than_ceiling(state: PumpState, pending: Seq<PumpCommand>)
    ensures
        pump_step(state, pending).1 matches PumpAction::SwitchOn { secs } ==> {
            &&& state == PumpState::Idle
            &&& pending.len() > 0
            &&& secs <= PUMP_MAX_DURATION_SECS
            &&& secs <= pending.first().duration_secs
            &&& secs == pending.first().duration_secs || secs == PUMP_MAX_DURATION_SECS
            &&& pump_step(state, pending).0 == PumpState::Running { secs }
        },
        state is Running ==> pump_step(state, pending) == (PumpState::Idle, PumpAction::SwitchOff),
        pump_step(state, pending).0 is Running ==> pump_step(state, pending).1 is SwitchOn,
{
}

} // verus!
