//! Actor status, and the decisions of an actor's message loop.
use vstd::prelude::*;
use super::message::SystemMessage;

verus! {

/// The run status of an actor.
#[derive(Debug, Clone, Copy, PartialEq, Eq, Structural)]
pub enum ActorStatus {
    Starting,
    Running,
    Suspended,
    Stopping,
    Stopped,
    Failed,
    /// Its state is saved, its task has ended, and messages sent to it are
    /// held.
    Hibernated,
}

/// What the message loop does with a received message.
#[derive(Debug, Clone, Copy, PartialEq, Eq, Structural)]
pub enum LoopStep {
    /// Commit the message and leave the loop (a `Stop`).
    CommitAndStop,
    /// Commit the message and go on (a `Ping`).
    CommitAndContinue,
    /// Hand the message to the actor.
    Handle,
}

/// What the loop does with a message, given the system message it holds,
/// if it holds one.
pub open spec fn loop_step_spec(system: Option<SystemMessage>) -> LoopStep {
    match system {
        Some(SystemMessage::Stop) => LoopStep::CommitAndStop,
        Some(SystemMessage::Ping) => LoopStep::CommitAndContinue,
        _ => LoopStep::Handle,
    }
}

/// What the loop does with a message: `Stop` ends the loop, `Ping` is
/// acknowledged, and everything else (`Restart` and `Pong` included) goes
/// to the actor.
pub fn loop_step(system: Option<SystemMessage>) -> (r: LoopStep)
    ensures
        r == loop_step_spec(system),
{
    match system {
        Some(SystemMessage::Stop) => LoopStep::CommitAndStop,
        Some(SystemMessage::Ping) => LoopStep::CommitAndContinue,
        _ => LoopStep::Handle,
    }
}

/// The status after the actor's start hook: running when it succeeded,
/// failed otherwise.
pub fn status_after_start(started: bool) -> (r: ActorStatus)
    ensures
        r == if started {
            ActorStatus::Running
        } else {
            ActorStatus::Failed
        },
{
    if started {
        ActorStatus::Running
    } else {
        ActorStatus::Failed
    }
}

} // verus!
