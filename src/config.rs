use vstd::prelude::*;

verus! {

/// The health endpoint probed to decide whether the backend is up.
pub const HEALTH_URL: &'static str = "http://localhost:8080/health";

/// Upper bound on a single health probe, in seconds.
pub const PROBE_TIMEOUT_SECS: u64 = 5;

/// Pause before the startup sequence probes, in seconds.
pub const STARTUP_DELAY_SECS: u64 = 2;

/// Time the embedded backend is given before its liveness is checked, in seconds.
pub const EMBEDDED_GRACE_SECS: u64 = 3;

/// Number of probes the readiness waiter makes before giving up.
pub const READY_MAX_ATTEMPTS: u32 = 30;

/// Pause between two readiness probes, in seconds.
pub const READY_INTERVAL_SECS: u64 = 1;

/// File name of the backend binary shipped among the application's resources.
pub const EMBEDDED_BINARY_NAME: &'static str = "nyx-server.exe";

/// Interpreter that runs script candidates.
pub const SCRIPT_INTERPRETER: &'static str = "python";

/// Working directory of a script candidate: the backend's source root.
pub const SCRIPT_WORKING_DIR: &'static str = "../server";

} // verus!
