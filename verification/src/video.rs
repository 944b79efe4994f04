//! The render schedule.
//!
//! Rendering itself (drawing frames, encoding the video) is owned by the
//! caller; the library only fixes the schedule: the fight-time instants at
//! which the trajectory stores are sampled, one per frame.

use vstd::prelude::*;

verus! {

/// Milliseconds of fight time between two consecutive frames: four samples
/// per second of fight.
pub const FRAME_INTERVAL_MS: i64 = 250;

/// The instants at which frames are rendered: every [`FRAME_INTERVAL_MS`]
/// milliseconds starting at `start_time`, while strictly before `end_time`.
pub fn frame_times(start_time: i64, end_time: i64) -> (ts: Vec<i64>)
    requires
        end_time <= i64::MAX - FRAME_INTERVAL_MS,
    ensures
        forall|k: int| 0 <= k < ts@.len() ==> ts@[k] == start_time + k * FRAME_INTERVAL_MS,
        forall|k: int| 0 <= k < ts@.len() ==> ts@[k] < end_time,
        start_time >= end_time ==> ts@.len() == 0,
        start_time < end_time ==> ts@.len() > 0,
        ts@.len() > 0 ==> start_time + ts@.len() * FRAME_INTERVAL_MS >= end_time,
{
    let mut ts: Vec<i64> = Vec::new();
    let mut t = start_time;
    while t < end_time
        invariant
            end_time <= i64::MAX - FRAME_INTERVAL_MS,
            start_time <= t,
            t == start_time + ts@.len() * FRAME_INTERVAL_MS,
            forall|k: int| 0 <= k < ts@.len() ==> ts@[k] == start_time + k * FRAME_INTERVAL_MS,
            forall|k: int| 0 <= k < ts@.len() ==> ts@[k] < end_time,
        decreases end_time + FRAME_INTERVAL_MS - t,
    {
        ts.push(t);
        t = t + FRAME_INTERVAL_MS;
    }
    proof {
        if ts@.len() > 0 {
            assert(ts@[0] == start_time + 0 * FRAME_INTERVAL_MS);
            assert(ts@[0] < end_time);
        }
    }
    ts
}

} // verus!
