//! The battery snapshot: charge percentage and textual state, from two
//! independent host queries.

use vstd::prelude::*;

use crate::query::QueryOutcome;
use crate::text::capacity_of;
use crate::text::parse_capacity;
use crate::text::trim_spec;
use crate::text::trimmed;

verus! {

/// A point-in-time battery snapshot. `capacity` is the charge percentage as
/// the host reported it, read as an integer and defaulting to 0 when the
/// text does not parse; `status` is the raw (trimmed) textual state.
#[derive(Debug)]
pub struct BatteryStatus {
    pub capacity: u8,
    pub status: String,
}

/// Merges the two battery query outcomes into a snapshot.
///
/// Both queries are load-bearing for spawn failure: when either process
/// could not be spawned, the call fails with that spawn error (the capacity
/// query's error first). The content is best-effort: capacity text that is
/// not an integer gives 0, and the status text is taken as-is, trimmed,
/// even when empty.
pub fn get_battery_status(capacity: QueryOutcome, status: QueryOutcome) -> (r: Result<
    BatteryStatus,
    String,
>)
    ensures
        (r is Ok <==> capacity is Output && status is Output),
        match (capacity, status) {
            (QueryOutcome::SpawnFailed(error), _) => r == Err::<BatteryStatus, String>(error),
            (QueryOutcome::Output(_), QueryOutcome::SpawnFailed(error)) => r == Err::<
                BatteryStatus,
                String,
            >(error),
            (QueryOutcome::Output(cap), QueryOutcome::Output(st)) => {
                &&& r is Ok
                &&& r->Ok_0.capacity == capacity_of(cap@)
                &&& r->Ok_0.status@ == trim_spec(st@)
            },
        },
{
    match (capacity, status) {
        (QueryOutcome::SpawnFailed(error), _) => Err(error),
        (QueryOutcome::Output(_), QueryOutcome::SpawnFailed(error)) => Err(error),
        (QueryOutcome::Output(cap), QueryOutcome::Output(st)) => {
            let capacity_num = parse_capacity(cap.as_str());
            let status_str = trimmed(st.as_str());
            Ok(BatteryStatus { capacity: capacity_num, status: status_str })
        },
    }
}

} // verus!
