//! The range planner: pure logic deciding whether a new confirmed block
//! range exists and what its bounds are.

use vstd::prelude::*;

verus! {

/// The height of the newest block considered confirmed: the reported chain
/// height minus the confirmation depth, clamped to zero when the depth
/// exceeds the height.
pub open spec fn confirmed_height_spec(latest: u64, confirmations: u64) -> u64 {
    if confirmations > latest {
        0
    } else {
        (latest - confirmations) as u64
    }
}

/// The range the planner decides on: `None` when the confirmed height has
/// not moved past the cursor, otherwise the inclusive range from one past
/// the cursor up to the confirmed height.
pub open spec fn plan_spec(after: u64, latest: u64, confirmations: u64) -> Option<(u64, u64)> {
    let confirmed = confirmed_height_spec(latest, confirmations);
    if confirmed > after {
        Some((((after + 1) as u64), confirmed))
    } else {
        None
    }
}

/// Computes the confirmed height with an explicit clamp: never underflows,
/// never wraps.
pub fn confirmed_height(latest: u64, confirmations: u64) -> (r: u64)
    ensures
        r == confirmed_height_spec(latest, confirmations),
{
    if confirmations > latest {
        0
    } else {
        latest - confirmations
    }
}

/// Plans the next confirmed range, given the cursor (the last height already
/// delivered), the chain height the node reported, and the confirmation
/// depth. Total and side-effect-free; a tick on which the confirmed height
/// has not passed the cursor is a silent no-op, not an error.
pub fn plan_range(after: u64, latest: u64, confirmations: u64) -> (r: Option<(u64, u64)>)
    ensures
        r == plan_spec(after, latest, confirmations),
        r matches Some(range) ==> range.0 == after + 1 && range.0 <= range.1,
        r is None <==> confirmed_height_spec(latest, confirmations) <= after,
{
    let confirmed: u64 = confirmed_height(latest, confirmations);
    if confirmed > after {
        Some((after + 1, confirmed))
    } else {
        None
    }
}

/// Law: a confirmation depth beyond the reported chain height clamps the
/// confirmed height to zero — no panic, no wraparound.
pub proof fn lemma_depth_exceeds_height(latest: u64, confirmations: u64)
    requires
        confirmations > latest,
    ensures
        confirmed_height_spec(latest, confirmations) == 0,
{
}

/// Law: when the confirmed height has not moved past the cursor, the
/// planner yields no range at all.
pub proof fn lemma_no_range_behind_cursor(after: u64, latest: u64, confirmations: u64)
    requires
        confirmed_height_spec(latest, confirmations) <= after,
    ensures
        plan_spec(after, latest, confirmations) is None,
{
}

} // verus!
