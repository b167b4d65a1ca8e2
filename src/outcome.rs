//! Failures of a run, and the outcome of a run that waits for the script.
use vstd::prelude::*;

verus! {

/// Why a run of the report script did not succeed.
#[derive(Clone, Debug, PartialEq, Eq)]
pub enum RunError {
    /// The interpreter could not be started; holds the system's description.
    LaunchFailure(String),
    /// The script ran and exited with a failure status. Holds what it wrote
    /// to standard error when that was captured: a waiting run captures it,
    /// a streaming run leaves standard error unread and holds `None`.
    ScriptFailure(Option<String>),
    /// Reading the script's output, or its exit status, failed.
    StreamReadFailure(String),
    /// The listener refused a forwarded line.
    DeliveryFailure(String),
}

impl RunError {
    /// The text handed to the caller for this failure.
    pub open spec fn message_spec(&self) -> Seq<char> {
        match self {
            RunError::LaunchFailure(d) => "Failed to execute Python script: "@ + d@,
            RunError::ScriptFailure(Some(e)) => "Python script failed: "@ + e@,
            RunError::ScriptFailure(None) => "Python script failed"@,
            RunError::StreamReadFailure(d) => "Error reading Python output: "@ + d@,
            RunError::DeliveryFailure(d) => "Failed to emit event: "@ + d@,
        }
    }

    /// Describes the failure for the caller.
    pub fn message(&self) -> (r: String)
        ensures
            r@ == self.message_spec(),
    {
        match self {
            RunError::LaunchFailure(d) => String::from_str("Failed to execute Python script: ").concat(
                d.as_str(),
            ),
            RunError::ScriptFailure(Some(e)) => String::from_str("Python script failed: ").concat(
                e.as_str(),
            ),
            RunError::ScriptFailure(None) => String::from_str("Python script failed"),
            RunError::StreamReadFailure(d) => String::from_str("Error reading Python output: ").concat(
                d.as_str(),
            ),
            RunError::DeliveryFailure(d) => String::from_str("Failed to emit event: ").concat(
                d.as_str(),
            ),
        }
    }
}

/// What a script that ran to completion left behind.
#[derive(Clone, Debug, PartialEq, Eq)]
pub struct ScriptOutput {
    /// Whether the exit status was success (zero).
    pub success: bool,
    /// Everything written to standard output.
    pub stdout: String,
    /// Everything written to standard error.
    pub stderr: String,
}

impl ScriptOutput {
    pub fn new(success: bool, stdout: String, stderr: String) -> (r: ScriptOutput)
        ensures
            r.success == success,
            r.stdout == stdout,
            r.stderr == stderr,
    {
        ScriptOutput { success, stdout, stderr }
    }
}

/// The result of a waiting run, given how the launch went: the captured
/// standard output on success, the captured standard error on a failure
/// status, and the system's description when the launch itself failed.
pub open spec fn blocking_outcome_spec(launch: Result<ScriptOutput, String>) -> Result<
    String,
    RunError,
> {
    match launch {
        Err(d) => Err(RunError::LaunchFailure(d)),
        Ok(out) => if out.success {
            Ok(out.stdout)
        } else {
            Err(RunError::ScriptFailure(Some(out.stderr)))
        },
    }
}

/// Decides the result of a run that waited for the script to finish.
pub fn blocking_outcome(launch: Result<ScriptOutput, String>) -> (r: Result<String, RunError>)
    ensures
        r == blocking_outcome_spec(launch),
        r is Ok <==> (launch is Ok && launch->Ok_0.success),
        r is Ok ==> r->Ok_0@ == launch->Ok_0.stdout@,
        launch is Err ==> r == Err::<String, RunError>(RunError::LaunchFailure(launch->Err_0)),
        launch is Ok && !launch->Ok_0.success ==> r == Err::<String, RunError>(
            RunError::ScriptFailure(Some(launch->Ok_0.stderr)),
        ),
{
    match launch {
        Err(d) => Err(RunError::LaunchFailure(d)),
        Ok(out) => {
            if out.success {
                Ok(out.stdout)
            } else {
                Err(RunError::ScriptFailure(Some(out.stderr)))
            }
        },
    }
}

} // verus!
