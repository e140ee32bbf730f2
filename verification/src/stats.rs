//! The system snapshot: four text fields merged from four independent host
//! queries, with the CPU model load-bearing and the rest best-effort.

use vstd::prelude::*;

use crate::query::QueryOutcome;
use crate::query::best_effort_field;
use crate::query::resolve_best_effort;
use crate::text::trim_spec;
use crate::text::trimmed;

verus! {

/// A point-in-time snapshot of host CPU/GPU/power state. Every field is an
/// opaque, human-readable string taken verbatim (trimmed) from a host tool;
/// a best-effort field degrades to `"unknown"` instead of going absent.
#[derive(Debug)]
pub struct SystemStats {
    pub cpu_model: String,
    pub cpu_boost: String,
    pub gpu_mode: String,
    pub power_profile: String,
}

/// Merges the four query outcomes into a snapshot.
///
/// The CPU-model query is load-bearing: when its process could not be
/// spawned, the whole call fails with that spawn error and no partial
/// snapshot is produced. The other three queries are best-effort: whatever
/// became of them, the call succeeds, each of their fields holding the
/// trimmed output or the `"unknown"` fallback.
pub fn detect_stats(
    cpu: QueryOutcome,
    boost: QueryOutcome,
    gpu: QueryOutcome,
    profile: QueryOutcome,
) -> (r: Result<SystemStats, String>)
    ensures
        (r is Ok <==> cpu is Output),
        match cpu {
            QueryOutcome::Output(out) => {
                &&& r is Ok
                &&& r->Ok_0.cpu_model@ == trim_spec(out@)
                &&& r->Ok_0.cpu_boost@ == best_effort_field(boost)
                &&& r->Ok_0.gpu_mode@ == best_effort_field(gpu)
                &&& r->Ok_0.power_profile@ == best_effort_field(profile)
            },
            QueryOutcome::SpawnFailed(error) => r == Err::<SystemStats, String>(error),
        },
{
    match cpu {
        QueryOutcome::Output(out) => {
            let cpu_model = trimmed(out.as_str());
            let cpu_boost = resolve_best_effort(&boost);
            let gpu_mode = resolve_best_effort(&gpu);
            let power_profile = resolve_best_effort(&profile);
            Ok(SystemStats { cpu_model, cpu_boost, gpu_mode, power_profile })
        },
        QueryOutcome::SpawnFailed(error) => Err(error),
    }
}

} // verus!
