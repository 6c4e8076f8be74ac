use vstd::prelude::*;
use crate::config::{SCRIPT_INTERPRETER, SCRIPT_WORKING_DIR};
use crate::locator::{first_present, CandidateKind, CandidateList, CandidatePath};

verus! {

/// Why a launch strategy failed.
pub enum LaunchError {
    /// The host could not tell where its resources live.
    ResourceDirUnavailable(String),
    /// No backend binary lies among the resources.
    EmbeddedMissing,
    /// The embedded binary could not be started.
    EmbeddedSpawnFailed(String),
    /// The embedded process ended during its grace period, with this status.
    ExitedEarly(String),
    /// Asking whether the embedded process still runs failed.
    StatusCheckFailed(String),
    /// None of the external candidates exists.
    ExternalMissing,
    /// The located external candidate could not be started.
    ExternalSpawnFailed { path: String, reason: String },
}

impl LaunchError {
    /// The text shown to the user for this failure.
    pub open spec fn message_spec(&self) -> Seq<char> {
        match self {
            LaunchError::ResourceDirUnavailable(r) => "Failed to get resource directory: "@ + r@,
            LaunchError::EmbeddedMissing => "Server executable not found in resources"@,
            LaunchError::EmbeddedSpawnFailed(r) => "Failed to start server: "@ + r@,
            LaunchError::ExitedEarly(s) => "Server process exited early with status: "@ + s@,
            LaunchError::StatusCheckFailed(r) => "Error checking server process: "@ + r@,
            LaunchError::ExternalMissing => "Could not find or start server executable"@,
            LaunchError::ExternalSpawnFailed { path, reason } => "Failed to start server from "@
                + path@ + ": "@ + reason@,
        }
    }

    /// Renders the failure as a human-readable message.
    pub fn message(&self) -> (r: String)
        ensures
            r@ == self.message_spec(),
    {
        match self {
            LaunchError::ResourceDirUnavailable(r) => String::from_str(
                "Failed to get resource directory: ",
            ).concat(r.as_str()),
            LaunchError::EmbeddedMissing => String::from_str(
                "Server executable not found in resources",
            ),
            LaunchError::EmbeddedSpawnFailed(r) => String::from_str(
                "Failed to start server: ",
            ).concat(r.as_str()),
            LaunchError::ExitedEarly(s) => String::from_str(
                "Server process exited early with status: ",
            ).concat(s.as_str()),
            LaunchError::StatusCheckFailed(r) => String::from_str(
                "Error checking server process: ",
            ).concat(r.as_str()),
            LaunchError::ExternalMissing => String::from_str(
                "Could not find or start server executable",
            ),
            LaunchError::ExternalSpawnFailed { path, reason } => String::from_str(
                "Failed to start server from ",
            ).concat(path.as_str()).concat(": ").concat(reason.as_str()),
        }
    }
}

/// How to start an external candidate: the program, its arguments and, for
/// scripts, the working directory.
pub struct SpawnPlan {
    pub program: String,
    pub args: Vec<String>,
    pub working_dir: Option<String>,
}

/// A script runs through the interpreter from the backend's root; a binary
/// runs directly, with no arguments, where it is.
pub open spec fn is_plan_for(plan: SpawnPlan, candidate: CandidatePath) -> bool {
    match candidate.kind {
        CandidateKind::Script => {
            &&& plan.program@ == SCRIPT_INTERPRETER@
            &&& plan.args.len() == 1
            &&& plan.args[0]@ == candidate.path@
            &&& plan.working_dir matches Some(d) && d@ == SCRIPT_WORKING_DIR@
        },
        CandidateKind::NativeBinary => {
            &&& plan.program@ == candidate.path@
            &&& plan.args.len() == 0
            &&& plan.working_dir is None
        },
    }
}

/// The command line that starts a candidate.
pub fn spawn_plan(candidate: &CandidatePath) -> (r: SpawnPlan)
    ensures
        is_plan_for(r, *candidate),
{
    match candidate.kind {
        CandidateKind::Script => {
            let mut args: Vec<String> = Vec::new();
            args.push(candidate.path.clone());
            SpawnPlan {
                program: String::from_str(SCRIPT_INTERPRETER),
                args,
                working_dir: Some(String::from_str(SCRIPT_WORKING_DIR)),
            }
        },
        CandidateKind::NativeBinary => SpawnPlan {
            program: candidate.path.clone(),
            args: Vec::new(),
            working_dir: None,
        },
    }
}

/// The external strategy's choice: the first present candidate, or
/// `ExternalMissing` when none is present. It reads nothing but its
/// arguments, so every call that finds a candidate goes on to spawn it.
pub fn select_external(candidates: &CandidateList, present: &Vec<bool>) -> (r: Result<
    usize,
    LaunchError,
>)
    requires
        present.len() == candidates.entries.len(),
    ensures
        r matches Ok(i) ==> Some(i as int) == first_present(present@),
        r is Err ==> first_present(present@) is None && r == Err::<usize, LaunchError>(
            LaunchError::ExternalMissing,
        ),
{
    match candidates.locate(present) {
        Some(i) => Ok(i),
        None => Err(LaunchError::ExternalMissing),
    }
}

/// The success message of the external strategy, naming the path used.
pub open spec fn started_message(path: Seq<char>) -> Seq<char> {
    "Server started from "@ + path
}

/// Turns the outcome of spawning an external candidate into the strategy's
/// result: a message naming the path, or the spawn failure with its reason.
pub fn external_launch_result(candidate: &CandidatePath, spawned: Result<(), String>) -> (r: Result<
    String,
    LaunchError,
>)
    ensures
        spawned is Ok ==> (r matches Ok(m) && m@ == started_message(candidate.path@)),
        spawned matches Err(e) ==> r == Err::<String, LaunchError>(
            LaunchError::ExternalSpawnFailed { path: candidate.path, reason: e },
        ),
{
    match spawned {
        Ok(()) => Ok(String::from_str("Server started from ").concat(candidate.path.as_str())),
        Err(e) => Err(LaunchError::ExternalSpawnFailed { path: candidate.path.clone(), reason: e }),
    }
}

/// What a non-blocking look at the embedded process found after its grace period.
pub enum LivenessCheck {
    /// The process is still running.
    Running,
    /// The process has ended, with this status.
    ExitedWithStatus(String),
    /// The status could not be read.
    CheckError(String),
}

/// Only a process that is still running counts as started.
pub open spec fn liveness_spec(check: LivenessCheck) -> Result<(), LaunchError> {
    match check {
        LivenessCheck::Running => Ok(()),
        LivenessCheck::ExitedWithStatus(s) => Err(LaunchError::ExitedEarly(s)),
        LivenessCheck::CheckError(e) => Err(LaunchError::StatusCheckFailed(e)),
    }
}

/// Decides the embedded launch from the liveness check.
pub fn liveness_result(check: LivenessCheck) -> (r: Result<(), LaunchError>)
    ensures
        r == liveness_spec(check),
        r is Ok <==> check is Running,
{
    match check {
        LivenessCheck::Running => Ok(()),
        LivenessCheck::ExitedWithStatus(s) => Err(LaunchError::ExitedEarly(s)),
        LivenessCheck::CheckError(e) => Err(LaunchError::StatusCheckFailed(e)),
    }
}

} // verus!
