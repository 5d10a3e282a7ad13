//! The life of the bridge, and the order in which it is shut down.

use vstd::prelude::*;
use crate::error::BridgeError;
use crate::error::BridgeErrorView;
use crate::reply::Reply;
use crate::reply::ReplyView;
use crate::reply::reply_view;

verus! {

/// Where the bridge stands. `Dead` is the fuse: once there, it stays there.
#[derive(Debug, Clone, Copy, PartialEq, Eq, Structural)]
pub enum Lifecycle {
    /// The worker is being started.
    Starting,
    /// Requests are written to the worker.
    Ready,
    /// The worker is gone; nothing is written any more.
    Dead,
}

/// What moves the bridge from one state to the next.
#[derive(Debug, Clone, Copy, PartialEq, Eq, Structural)]
pub enum Trigger {
    /// The worker runs, its output is being read and its input can be
    /// written. The protocol has no handshake, so this follows the start at
    /// once.
    Launched,
    /// The worker's output ended.
    EndOfStream,
    /// A write to the worker's input failed.
    WriteFailed,
}

impl Lifecycle {
    /// Whether the fuse is set.
    pub open spec fn is_dead(self) -> bool {
        self is Dead
    }

    /// The state after `trigger`.
    pub open spec fn after(self, trigger: Trigger) -> Lifecycle {
        match self {
            Lifecycle::Dead => Lifecycle::Dead,
            _ => match trigger {
                Trigger::Launched => Lifecycle::Ready,
                _ => Lifecycle::Dead,
            },
        }
    }

    /// The state after each of `triggers` in turn.
    pub open spec fn after_all(self, triggers: Seq<Trigger>) -> Lifecycle
        decreases triggers.len(),
    {
        if triggers.len() == 0 {
            self
        } else {
            self.after(triggers[0]).after_all(triggers.drop_first())
        }
    }

    /// The state after `trigger`: `Launched` makes a starting bridge ready,
    /// the end of the worker's output and a failed write set the fuse, and
    /// nothing leads out of `Dead`.
    pub fn next(self, trigger: Trigger) -> (state: Lifecycle)
        ensures
            state == self.after(trigger),
    {
        match self {
            Lifecycle::Dead => Lifecycle::Dead,
            _ => match trigger {
                Trigger::Launched => Lifecycle::Ready,
                _ => Lifecycle::Dead,
            },
        }
    }

    /// Whether the fuse is set.
    pub fn dead(self) -> (dead: bool)
        ensures
            dead == self.is_dead(),
    {
        match self {
            Lifecycle::Dead => true,
            _ => false,
        }
    }
}

/// The time the worker is given to stop by itself, in milliseconds.
pub const GRACE_PERIOD_MS: u64 = 500;

/// The method of the request that asks the worker to stop.
pub const STOP_METHOD: &'static str = "shutdown";

/// How the request to stop ended. The shutdown goes on in the same way after
/// each of them.
#[derive(Debug, Clone, Copy, PartialEq, Eq, Structural)]
pub enum StopOutcome {
    /// The worker answered.
    Answered,
    /// The request failed: the worker reported an error, the bridge was
    /// dead already, or the write failed.
    Failed,
    /// No answer came before the deadline.
    TimedOut,
}

/// How the request to stop ended, given what its caller was told: a result
/// is an answer, `Timeout` is a timeout, and every other error is a failure.
pub open spec fn stop_outcome_spec(told: ReplyView) -> StopOutcome {
    match told {
        Ok(_) => StopOutcome::Answered,
        Err(BridgeErrorView::Timeout) => StopOutcome::TimedOut,
        Err(_) => StopOutcome::Failed,
    }
}

/// How the request to stop ended, given what its caller was told.
pub fn stop_outcome(told: &Reply) -> (outcome: StopOutcome)
    ensures
        outcome == stop_outcome_spec(reply_view(*told)),
{
    match told {
        Ok(_) => StopOutcome::Answered,
        Err(BridgeError::Timeout) => StopOutcome::TimedOut,
        Err(_) => StopOutcome::Failed,
    }
}

/// How far a shutdown has come.
#[derive(Debug, Clone, Copy, PartialEq, Eq, Structural)]
pub enum ShutdownStage {
    /// Nothing has been done.
    Idle,
    /// The worker has been asked to stop.
    Asked,
    /// The grace period runs.
    Waiting,
    /// The worker has been killed.
    Finished,
}

/// What has just happened to a shutdown.
#[derive(Debug, Clone, Copy, PartialEq, Eq, Structural)]
pub enum ShutdownEvent {
    /// `shutdown` was called.
    Requested,
    /// The request to stop ended.
    StopSettled(StopOutcome),
    /// The grace period is over.
    GraceElapsed,
}

/// What the caller of a shutdown does next.
#[derive(Debug, Clone, Copy, PartialEq, Eq, Structural)]
pub enum ShutdownAction {
    /// Send the request to stop and wait for it to end, whatever the end.
    AskToStop,
    /// Wait for this many milliseconds.
    Wait(u64),
    /// Kill the worker process.
    ForceKill,
    /// Nothing: the event does not belong to this stage.
    Nothing,
}

/// A shutdown step: the stage that follows and what to do.
#[derive(Debug, Clone, Copy, PartialEq, Eq, Structural)]
pub struct ShutdownStep {
    pub stage: ShutdownStage,
    pub action: ShutdownAction,
}

impl ShutdownStage {
    /// The step that `event` causes at this stage.
    ///
    /// A request to shut down starts the sequence from the beginning, at any
    /// stage: on a bridge that is shut down already it asks, waits and kills
    /// once more, which harms nothing.
    pub open spec fn on(self, event: ShutdownEvent) -> ShutdownStep {
        match (self, event) {
            (_, ShutdownEvent::Requested) => ShutdownStep {
                stage: ShutdownStage::Asked,
                action: ShutdownAction::AskToStop,
            },
            (ShutdownStage::Asked, ShutdownEvent::StopSettled(_)) => ShutdownStep {
                stage: ShutdownStage::Waiting,
                action: ShutdownAction::Wait(GRACE_PERIOD_MS),
            },
            (ShutdownStage::Waiting, ShutdownEvent::GraceElapsed) => ShutdownStep {
                stage: ShutdownStage::Finished,
                action: ShutdownAction::ForceKill,
            },
            _ => ShutdownStep { stage: self, action: ShutdownAction::Nothing },
        }
    }

    /// The step that `event` causes at this stage: ask the worker to stop,
    /// then wait for the grace period however the request ended, then kill
    /// the worker.
    pub fn advance(self, event: ShutdownEvent) -> (step: ShutdownStep)
        ensures
            step == self.on(event),
    {
        match event {
            ShutdownEvent::Requested => ShutdownStep {
                stage: ShutdownStage::Asked,
                action: ShutdownAction::AskToStop,
            },
            ShutdownEvent::StopSettled(_) => match self {
                ShutdownStage::Asked => ShutdownStep {
                    stage: ShutdownStage::Waiting,
                    action: ShutdownAction::Wait(GRACE_PERIOD_MS),
                },
                _ => ShutdownStep { stage: self, action: ShutdownAction::Nothing },
            },
            ShutdownEvent::GraceElapsed => match self {
                ShutdownStage::Waiting => ShutdownStep {
                    stage: ShutdownStage::Finished,
                    action: ShutdownAction::ForceKill,
                },
                _ => ShutdownStep { stage: self, action: ShutdownAction::Nothing },
            },
        }
    }
}

/// Whether the worker process runs after `action`, given whether it ran
/// before: a kill leaves it not running, and nothing else starts or stops it.
pub open spec fn worker_runs_after(running: bool, action: ShutdownAction) -> bool {
    running && !(action is ForceKill)
}

} // verus!
