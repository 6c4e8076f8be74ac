use vstd::prelude::*;

verus! {

/// Lowest HTTP status code that counts as success.
pub const SUCCESS_STATUS_MIN: u16 = 200;

/// Highest HTTP status code that counts as success.
pub const SUCCESS_STATUS_MAX: u16 = 299;

/// What a single health probe ran into.
pub enum ProbeResponse {
    /// The endpoint answered with this HTTP status code.
    Status(u16),
    /// No answer arrived within the probe timeout.
    TimedOut,
    /// The connection could not be made (refused, name resolution, transport error).
    ConnectionFailed,
}

/// A status code in the 2xx class.
pub open spec fn is_success_status(code: u16) -> bool {
    SUCCESS_STATUS_MIN <= code && code <= SUCCESS_STATUS_MAX
}

/// The backend counts as reachable exactly when it answered with a 2xx status.
pub open spec fn is_reachable(response: ProbeResponse) -> bool {
    match response {
        ProbeResponse::Status(code) => is_success_status(code),
        _ => false,
    }
}

/// Whether an HTTP status code is in the 2xx class.
pub fn status_is_success(code: u16) -> (r: bool)
    ensures
        r == is_success_status(code),
{
    SUCCESS_STATUS_MIN <= code && code <= SUCCESS_STATUS_MAX
}

/// Reduces the outcome of one probe to reachable or not; transport failures
/// and timeouts are never reported as anything but "not reachable".
pub fn check_health(response: &ProbeResponse) -> (r: bool)
    ensures
        r == is_reachable(*response),
        !(response is Status) ==> !r,
{
    match response {
        ProbeResponse::Status(code) => status_is_success(*code),
        ProbeResponse::TimedOut => false,
        ProbeResponse::ConnectionFailed => false,
    }
}

/// A probe that timed out or could not connect always reads as unreachable.
pub proof fn lemma_probe_failure_is_unreachable(response: ProbeResponse)
    requires
        response is TimedOut || response is ConnectionFailed,
    ensures
        !is_reachable(response),
{
}

} // verus!
