//! The words that the host shows: a diagnostic for a spawn that failed, and
//! the greeting that the front end asks for.

use crate::supervisor::SpawnError;
use vstd::prelude::*;
use vstd::string::StringExecFns;

verus! {

/// The name by which the host's locator finds the sidecar binary.
pub const SIDECAR_NAME: &'static str = "backend";

impl SpawnError {
    /// The error in words.
    pub open spec fn text(self) -> Seq<char> {
        match self {
            SpawnError::ResolutionFailed => "no sidecar binary was found for this platform"@,
            SpawnError::LaunchFailed => "the sidecar process could not be created"@,
            SpawnError::AlreadyRunning => "a sidecar is already running"@,
        }
    }

    /// The error in words.
    pub fn describe(&self) -> (text: String)
        ensures
            text@ == self.text(),
    {
        match self {
            SpawnError::ResolutionFailed => String::from_str(
                "no sidecar binary was found for this platform",
            ),
            SpawnError::LaunchFailed => String::from_str("the sidecar process could not be created"),
            SpawnError::AlreadyRunning => String::from_str("a sidecar is already running"),
        }
    }
}

/// The diagnostic for a spawn that failed with `error`.
pub open spec fn failure_text(error: SpawnError) -> Seq<char> {
    "Failed to spawn backend sidecar: "@ + error.text()
}

/// What the host logs after a spawn: nothing when it succeeded, and the
/// diagnostic when it failed. Either way the host goes on; a failed spawn
/// is never fatal.
pub fn startup_notice(result: Result<(), SpawnError>) -> (notice: Option<String>)
    ensures
        result is Ok ==> notice is None,
        result is Err ==> notice is Some && notice->0@ == failure_text(result->Err_0),
{
    match result {
        Ok(_) => None,
        Err(error) => {
            let mut notice = String::from_str("Failed to spawn backend sidecar: ");
            let text = error.describe();
            notice.append(text.as_str());
            Some(notice)
        },
    }
}

/// The diagnostic for a request to terminate that failed for `reason`.
pub open spec fn stop_failure_text(reason: Seq<char>) -> Seq<char> {
    "Failed to stop backend sidecar: "@ + reason
}

/// What the host logs after it asked the sidecar's process to terminate:
/// nothing when the request went through, and the diagnostic when it was
/// refused, with the reason that the host gives. A refusal ends here; the
/// shutdown itself has already succeeded.
pub fn shutdown_notice(refusal: Option<&str>) -> (notice: Option<String>)
    ensures
        refusal is None ==> notice is None,
        refusal is Some ==> notice is Some && notice->0@ == stop_failure_text(refusal->0@),
{
    match refusal {
        None => None,
        Some(reason) => {
            let mut notice = String::from_str("Failed to stop backend sidecar: ");
            notice.append(reason);
            Some(notice)
        },
    }
}

/// The greeting for `name`.
pub open spec fn greeting(name: Seq<char>) -> Seq<char> {
    "Hello, "@ + name + "! You've been greeted from Rust!"@
}

/// Greets `name`.
pub fn greet(name: &str) -> (text: String)
    ensures
        text@ == greeting(name@),
{
    let mut text = String::from_str("Hello, ");
    text.append(name);
    text.append("! You've been greeted from Rust!");
    text
}

} // verus!
