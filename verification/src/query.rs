//! The read-only host queries: which command each one runs, what its raw
//! outcome looks like, and the fallback policy for the best-effort fields.

use vstd::prelude::*;
use vstd::string::StrSliceExecFns;
use vstd::string::StringExecFns;

use crate::text::trim_spec;
use crate::text::trimmed;

verus! {

/// A command for the caller to run: a program and its arguments.
pub struct HostCommand {
    pub program: String,
    pub args: Vec<String>,
}

/// One of the read-only host queries behind a snapshot field.
pub enum HostQuery {
    /// The CPU model line of the CPU info source, label stripped.
    CpuModel,
    /// The CPU turbo-boost toggle.
    CpuBoost,
    /// The current mode of the discrete-GPU switching utility.
    GpuMode,
    /// The active profile of the power-profile utility.
    PowerProfile,
    /// The battery charge percentage.
    BatteryCapacity,
    /// The textual battery state.
    BatteryState,
}

/// The raw outcome of running one query: the captured output of a process
/// that could be spawned, or the error text when it could not.
pub enum QueryOutcome {
    Output(String),
    SpawnFailed(String),
}

impl HostQuery {
    /// Whether a spawn failure of this query aborts the whole snapshot.
    /// The CPU model is the snapshot's primary identity, and both battery
    /// lookups are load-bearing; the remaining fields are best-effort.
    pub open spec fn load_bearing(self) -> bool {
        match self {
            HostQuery::CpuModel => true,
            HostQuery::CpuBoost => false,
            HostQuery::GpuMode => false,
            HostQuery::PowerProfile => false,
            HostQuery::BatteryCapacity => true,
            HostQuery::BatteryState => true,
        }
    }

    /// The command that answers this query on the host.
    pub fn command(&self) -> (c: HostCommand)
        ensures
            match self {
                HostQuery::CpuModel => c.program@ == "sh"@ && c.args@.len() == 2 && c.args@[0]@
                    == "-c"@ && c.args@[1]@
                    == "grep -m1 \"model name\" /proc/cpuinfo | cut -d: -f2 | sed 's/^ //'"@,
                HostQuery::CpuBoost => c.program@ == "sh"@ && c.args@.len() == 2 && c.args@[0]@
                    == "-c"@ && c.args@[1]@
                    == "cat /sys/devices/system/cpu/cpufreq/boost 2>/dev/null"@,
                HostQuery::GpuMode => c.program@ == "sh"@ && c.args@.len() == 2 && c.args@[0]@
                    == "-c"@ && c.args@[1]@ == "supergfxctl -g 2>/dev/null"@,
                HostQuery::PowerProfile => c.program@ == "powerprofilesctl"@ && c.args@.len() == 1
                    && c.args@[0]@ == "get"@,
                HostQuery::BatteryCapacity => c.program@ == "sh"@ && c.args@.len() == 2
                    && c.args@[0]@ == "-c"@ && c.args@[1]@
                    == "cat /sys/class/power_supply/BAT0/capacity 2>/dev/null"@,
                HostQuery::BatteryState => c.program@ == "sh"@ && c.args@.len() == 2 && c.args@[0]@
                    == "-c"@ && c.args@[1]@
                    == "cat /sys/class/power_supply/BAT0/status 2>/dev/null"@,
            },
    {
        match self {
            HostQuery::CpuModel => shell_command(
                "grep -m1 \"model name\" /proc/cpuinfo | cut -d: -f2 | sed 's/^ //'",
            ),
            HostQuery::CpuBoost => shell_command(
                "cat /sys/devices/system/cpu/cpufreq/boost 2>/dev/null",
            ),
            HostQuery::GpuMode => shell_command("supergfxctl -g 2>/dev/null"),
            HostQuery::PowerProfile => {
                let mut args: Vec<String> = Vec::new();
                args.push(String::from_str("get"));
                HostCommand { program: String::from_str("powerprofilesctl"), args }
            },
            HostQuery::BatteryCapacity => shell_command(
                "cat /sys/class/power_supply/BAT0/capacity 2>/dev/null",
            ),
            HostQuery::BatteryState => shell_command(
                "cat /sys/class/power_supply/BAT0/status 2>/dev/null",
            ),
        }
    }
}

/// A command that runs `script` through the shell.
fn shell_command(script: &str) -> (c: HostCommand)
    ensures
        c.program@ == "sh"@,
        c.args@.len() == 2,
        c.args@[0]@ == "-c"@,
        c.args@[1]@ == script@,
{
    let mut args: Vec<String> = Vec::new();
    args.push(String::from_str("-c"));
    args.push(String::from_str(script));
    HostCommand { program: String::from_str("sh"), args }
}

/// The value a best-effort snapshot field takes for a given query outcome:
/// the trimmed output when the query ran and produced usable (non-empty)
/// output, and the literal fallback `"unknown"` otherwise.
pub open spec fn best_effort_field(q: QueryOutcome) -> Seq<char> {
    match q {
        QueryOutcome::Output(out) => if trim_spec(out@).len() > 0 {
            trim_spec(out@)
        } else {
            "unknown"@
        },
        QueryOutcome::SpawnFailed(_) => "unknown"@,
    }
}

/// Resolves a best-effort field from its query outcome, degrading a failed
/// or empty query to the fallback rather than propagating the failure.
pub fn resolve_best_effort(q: &QueryOutcome) -> (r: String)
    ensures
        r@ == best_effort_field(*q),
{
    match q {
        QueryOutcome::Output(out) => {
            let t = trimmed(out.as_str());
            if t.as_str().unicode_len() > 0 {
                t
            } else {
                String::from_str("unknown")
            }
        },
        QueryOutcome::SpawnFailed(_) => String::from_str("unknown"),
    }
}

/// A best-effort query whose process could not be spawned degrades to the
/// fallback value instead of failing the snapshot.
pub proof fn lemma_spawn_failure_falls_back(error: String)
    ensures
        best_effort_field(QueryOutcome::SpawnFailed(error)) == "unknown"@,
{
}

/// A best-effort query that ran but produced no usable output (nothing but
/// whitespace) degrades to the fallback value as well.
pub proof fn lemma_empty_output_falls_back(out: String)
    requires
        trim_spec(out@).len() == 0,
    ensures
        best_effort_field(QueryOutcome::Output(out)) == "unknown"@,
{
}

} // verus!
