//! The status reporter: the slot's state and the memory the process uses.

use crate::lifecycle::LifecycleState;
use crate::pb::{MemoryUsageData, MemoryUsageEntry, StatusResponse};
use nix::sys::resource::{getrusage, UsageWho};
use vstd::prelude::*;
use vstd::string::*;

verus! {

/// The slot's state and the process's memory at one moment.
#[derive(Debug, PartialEq, Eq)]
pub struct StatusSnapshot {
    pub state: LifecycleState,
    pub memory_total: u64,
    /// The parts of the total, by label.
    pub memory_breakdown: Vec<MemoryUsageEntry>,
}

/// The peak resident set size of this process in kilobytes, as
/// `nix::sys::resource::getrusage` reports it for `RUSAGE_SELF`; `None`
/// where the call fails. Nothing is claimed of the number.
#[verifier::external_body]
fn peak_resident_set() -> (sample: Option<i64>) {
    match getrusage(UsageWho::RUSAGE_SELF) {
        Ok(usage) => Some(i64::from(usage.max_rss())),
        Err(_) => None,
    }
}

/// The memory total that a sample stands for: the sample as an unsigned
/// number, and zero where there is none.
pub open spec fn memory_total_spec(sample: Option<i64>) -> u64 {
    match sample {
        Some(kilobytes) => kilobytes as u64,
        None => 0,
    }
}

/// Whether `breakdown` is the one part that the reporter knows: the
/// resident set, which is the whole of `total`.
pub open spec fn resident_only(breakdown: Seq<MemoryUsageEntry>, total: u64) -> bool {
    &&& breakdown.len() == 1
    &&& breakdown[0].label@ == "RSS"@
    &&& breakdown[0].amount == total
}

/// Computes the memory total that a sample stands for.
pub fn memory_total(sample: Option<i64>) -> (total: u64)
    ensures
        total == memory_total_spec(sample),
        sample matches Some(kilobytes) ==> (kilobytes >= 0 ==> total == kilobytes),
{
    match sample {
        Some(kilobytes) => {
            #[verifier::truncate]
            let total = kilobytes as u64;
            total
        },
        None => 0,
    }
}

/// The snapshot of a slot in `state` at a moment when the memory sample was
/// `sample`.
pub fn snapshot(state: LifecycleState, sample: Option<i64>) -> (snapshot: StatusSnapshot)
    ensures
        snapshot.state == state,
        snapshot.memory_total == memory_total_spec(sample),
        resident_only(snapshot.memory_breakdown@, snapshot.memory_total),
{
    let total = memory_total(sample);
    let mut breakdown: Vec<MemoryUsageEntry> = Vec::new();
    breakdown.push(MemoryUsageEntry { label: String::from_str("RSS"), amount: total });
    StatusSnapshot { state, memory_total: total, memory_breakdown: breakdown }
}

/// Takes the snapshot of a slot in `state` now. It never fails: where the
/// memory cannot be sampled, the snapshot reports zero.
pub fn observe(state: LifecycleState) -> (snapshot: StatusSnapshot)
    ensures
        snapshot.state == state,
        resident_only(snapshot.memory_breakdown@, snapshot.memory_total),
{
    snapshot(state, peak_resident_set())
}

impl StatusSnapshot {
    /// The snapshot as the answer to a status query.
    pub fn into_response(self) -> (response: StatusResponse)
        ensures
            response.state == self.state.reported().number(),
            response.memory == Some(
                MemoryUsageData { total: self.memory_total, breakdown: self.memory_breakdown },
            ),
    {
        StatusResponse {
            state: self.state.wire_state().as_i32(),
            memory: Some(
                MemoryUsageData { total: self.memory_total, breakdown: self.memory_breakdown },
            ),
        }
    }
}

} // verus!
