//! The privileged mutating actions: which elevated command each one runs,
//! and how a process outcome becomes the action's success or failure.

use vstd::prelude::*;
use vstd::string::StringExecFns;

use crate::query::HostCommand;

verus! {

/// The raw outcome of running a privileged action's process: whether an
/// exited process ended with a success status, or the error text when the
/// process could not be spawned at all.
pub enum ActionOutcome {
    Exited(bool),
    SpawnFailed(String),
}

/// The elevated command that switches the discrete GPU to `mode`. The mode
/// string is passed through unchanged, with no validation against a known
/// set of modes.
pub fn set_gpu_mode_command(mode: &str) -> (c: HostCommand)
    ensures
        c.program@ == "pkexec"@,
        c.args@.len() == 3,
        c.args@[0]@ == "supergfxctl"@,
        c.args@[1]@ == "-m"@,
        c.args@[2]@ == mode@,
{
    let mut args: Vec<String> = Vec::new();
    args.push(String::from_str("supergfxctl"));
    args.push(String::from_str("-m"));
    args.push(String::from_str(mode));
    HostCommand { program: String::from_str("pkexec"), args }
}

/// The elevated command that applies the power profile `profile_name`
/// through the fixed local helper. The profile name is passed through
/// unchanged, known or not.
pub fn set_profile_command(profile_name: &str) -> (c: HostCommand)
    ensures
        c.program@ == "pkexec"@,
        c.args@.len() == 2,
        c.args@[0]@ == "/usr/local/bin/powerctl-helper"@,
        c.args@[1]@ == profile_name@,
{
    let mut args: Vec<String> = Vec::new();
    args.push(String::from_str("/usr/local/bin/powerctl-helper"));
    args.push(String::from_str(profile_name));
    HostCommand { program: String::from_str("pkexec"), args }
}

/// The result of the GPU-mode action: success exactly when the elevated
/// process spawned and exited with a success status. A process that ran
/// and was rejected — by elevation, by the tool, or for an unsupported
/// mode — gives the one undifferentiated error text; a process that could
/// not be spawned gives the spawn error itself.
pub fn set_gpu_mode(outcome: ActionOutcome) -> (r: Result<(), String>)
    ensures
        (r is Ok <==> outcome == ActionOutcome::Exited(true)),
        match outcome {
            ActionOutcome::Exited(success) => if success {
                r is Ok
            } else {
                r is Err && r->Err_0@ == "Failed to set GPU mode"@
            },
            ActionOutcome::SpawnFailed(error) => r == Err::<(), String>(error),
        },
{
    match outcome {
        ActionOutcome::Exited(success) => {
            if success {
                Ok(())
            } else {
                Err(String::from_str("Failed to set GPU mode"))
            }
        },
        ActionOutcome::SpawnFailed(error) => Err(error),
    }
}

/// The result of the power-profile action: success exactly when the
/// elevated helper spawned and exited with a success status, with the same
/// undifferentiated failure reporting as the GPU-mode action.
pub fn set_profile(outcome: ActionOutcome) -> (r: Result<(), String>)
    ensures
        (r is Ok <==> outcome == ActionOutcome::Exited(true)),
        match outcome {
            ActionOutcome::Exited(success) => if success {
                r is Ok
            } else {
                r is Err && r->Err_0@ == "Failed to apply profile"@
            },
            ActionOutcome::SpawnFailed(error) => r == Err::<(), String>(error),
        },
{
    match outcome {
        ActionOutcome::Exited(success) => {
            if success {
                Ok(())
            } else {
                Err(String::from_str("Failed to apply profile"))
            }
        },
        ActionOutcome::SpawnFailed(error) => Err(error),
    }
}

} // verus!
