use vstd::prelude::*;
use crate::config::EMBEDDED_GRACE_SECS;
use crate::launch::{liveness_result, liveness_spec, LaunchError, LivenessCheck};

verus! {

/// Where an embedded launch stands: each stage waits for the outcome of the
/// action it asked for.
#[derive(Clone, Copy, PartialEq, Eq, Structural, Debug)]
pub enum EmbeddedStage {
    Idle,
    AwaitingResourceDir,
    AwaitingPresence,
    AwaitingSpawn,
    AwaitingGrace,
    AwaitingExitPoll,
    Finished,
}

/// What the host reports back to the embedded launch.
pub enum EmbeddedEvent {
    /// Start the launch.
    Begin,
    /// The resource directory is known.
    ResourceDirResolved,
    /// The resource directory could not be resolved, for this reason.
    ResourceDirFailed(String),
    /// Whether the backend binary exists under the resource directory.
    Presence(bool),
    /// The process was started.
    Spawned,
    /// The process could not be started, for this reason.
    SpawnFailed(String),
    /// The grace period is over.
    GraceElapsed,
    /// What the look at the process found.
    ExitPolled(LivenessCheck),
}

/// What the host is asked to do next.
pub enum EmbeddedAction {
    ResolveResourceDir,
    CheckPresence,
    Spawn,
    Sleep { secs: u64 },
    PollExit,
    /// The launch is over, with this result.
    Finish(Result<(), LaunchError>),
    /// The event did not fit the stage; nothing changes.
    Ignore,
}

/// One transition of the embedded launch: the next stage and the action asked for.
pub open spec fn embedded_step(stage: EmbeddedStage, event: EmbeddedEvent) -> (
    EmbeddedStage,
    EmbeddedAction,
) {
    match (stage, event) {
        (EmbeddedStage::Idle, EmbeddedEvent::Begin) => (
            EmbeddedStage::AwaitingResourceDir,
            EmbeddedAction::ResolveResourceDir,
        ),
        (EmbeddedStage::AwaitingResourceDir, EmbeddedEvent::ResourceDirResolved) => (
            EmbeddedStage::AwaitingPresence,
            EmbeddedAction::CheckPresence,
        ),
        (EmbeddedStage::AwaitingResourceDir, EmbeddedEvent::ResourceDirFailed(e)) => (
            EmbeddedStage::Finished,
            EmbeddedAction::Finish(Err(LaunchError::ResourceDirUnavailable(e))),
        ),
        (EmbeddedStage::AwaitingPresence, EmbeddedEvent::Presence(found)) => if found {
            (EmbeddedStage::AwaitingSpawn, EmbeddedAction::Spawn)
        } else {
            (EmbeddedStage::Finished, EmbeddedAction::Finish(Err(LaunchError::EmbeddedMissing)))
        },
        (EmbeddedStage::AwaitingSpawn, EmbeddedEvent::Spawned) => (
            EmbeddedStage::AwaitingGrace,
            EmbeddedAction::Sleep { secs: EMBEDDED_GRACE_SECS },
        ),
        (EmbeddedStage::AwaitingSpawn, EmbeddedEvent::SpawnFailed(e)) => (
            EmbeddedStage::Finished,
            EmbeddedAction::Finish(Err(LaunchError::EmbeddedSpawnFailed(e))),
        ),
        (EmbeddedStage::AwaitingGrace, EmbeddedEvent::GraceElapsed) => (
            EmbeddedStage::AwaitingExitPoll,
            EmbeddedAction::PollExit,
        ),
        (EmbeddedStage::AwaitingExitPoll, EmbeddedEvent::ExitPolled(check)) => (
            EmbeddedStage::Finished,
            EmbeddedAction::Finish(liveness_spec(check)),
        ),
        _ => (stage, EmbeddedAction::Ignore),
    }
}

/// The embedded-resource launch: resolve the resource directory, check that
/// the binary is there, spawn it, wait out the grace period, then confirm
/// that it still runs.
pub struct EmbeddedLaunch {
    pub stage: EmbeddedStage,
}

impl EmbeddedLaunch {
    pub fn new() -> (r: EmbeddedLaunch)
        ensures
            r.stage == EmbeddedStage::Idle,
    {
        EmbeddedLaunch { stage: EmbeddedStage::Idle }
    }

    /// Takes in one event and returns the action the host performs next.
    pub fn on_event(&mut self, event: EmbeddedEvent) -> (r: EmbeddedAction)
        ensures
            (final(self).stage, r) == embedded_step(old(self).stage, event),
    {
        match (self.stage, event) {
            (EmbeddedStage::Idle, EmbeddedEvent::Begin) => {
                self.stage = EmbeddedStage::AwaitingResourceDir;
                EmbeddedAction::ResolveResourceDir
            },
            (EmbeddedStage::AwaitingResourceDir, EmbeddedEvent::ResourceDirResolved) => {
                self.stage = EmbeddedStage::AwaitingPresence;
                EmbeddedAction::CheckPresence
            },
            (EmbeddedStage::AwaitingResourceDir, EmbeddedEvent::ResourceDirFailed(e)) => {
                self.stage = EmbeddedStage::Finished;
                EmbeddedAction::Finish(Err(LaunchError::ResourceDirUnavailable(e)))
            },
            (EmbeddedStage::AwaitingPresence, EmbeddedEvent::Presence(found)) => {
                if found {
                    self.stage = EmbeddedStage::AwaitingSpawn;
                    EmbeddedAction::Spawn
                } else {
                    self.stage = EmbeddedStage::Finished;
                    EmbeddedAction::Finish(Err(LaunchError::EmbeddedMissing))
                }
            },
            (EmbeddedStage::AwaitingSpawn, EmbeddedEvent::Spawned) => {
                self.stage = EmbeddedStage::AwaitingGrace;
                EmbeddedAction::Sleep { secs: EMBEDDED_GRACE_SECS }
            },
            (EmbeddedStage::AwaitingSpawn, EmbeddedEvent::SpawnFailed(e)) => {
                self.stage = EmbeddedStage::Finished;
                EmbeddedAction::Finish(Err(LaunchError::EmbeddedSpawnFailed(e)))
            },
            (EmbeddedStage::AwaitingGrace, EmbeddedEvent::GraceElapsed) => {
                self.stage = EmbeddedStage::AwaitingExitPoll;
                EmbeddedAction::PollExit
            },
            (EmbeddedStage::AwaitingExitPoll, EmbeddedEvent::ExitPolled(check)) => {
                self.stage = EmbeddedStage::Finished;
                EmbeddedAction::Finish(liveness_result(check))
            },
            _ => EmbeddedAction::Ignore,
        }
    }
}

/// A process that has already exited when the grace period ends makes the
/// embedded launch finish with a failure that carries its exit status.
pub proof fn lemma_early_exit_fails(status: String)
    ensures
        embedded_step(
            EmbeddedStage::AwaitingExitPoll,
            EmbeddedEvent::ExitPolled(LivenessCheck::ExitedWithStatus(status)),
        ) == (
            EmbeddedStage::Finished,
            EmbeddedAction::Finish(Err(LaunchError::ExitedEarly(status))),
        ),
{
}

} // verus!
