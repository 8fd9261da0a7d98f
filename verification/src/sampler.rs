//! The precise load sampler: turns the kernel's cumulative busy / idle /
//! protected-mode counters into a utilization percentage by differencing
//! consecutive readings. The sampler owns the previous reading explicitly,
//! so repeated calls need no global state.

use vstd::prelude::*;

verus! {

/// The load percentage a pair of consecutive counter readings yields:
/// `(busy + protm) * 100 / total` over the deltas, clamped into
/// `[0, i32::MAX]`, and nothing when the total delta is not positive
/// (counters unchanged, or wrapped backwards).
pub open spec fn spec_delta_load(db: int, di: int, dp: int) -> Option<i32> {
    let total = db + di + dp;
    if total > 0 {
        if db + dp <= 0 {
            Some(0i32)
        } else {
            let l = (db + dp) * 100 / total;
            if l > i32::MAX as int {
                Some(i32::MAX)
            } else {
                Some(l as i32)
            }
        }
    } else {
        None
    }
}

/// Sampler of the delta-based utilization counters.
#[derive(Clone, Copy, Debug, PartialEq, Eq, Structural)]
pub struct DeltaLoadSampler {
    /// Cumulative busy time of the previous reading.
    pub prev_busy: i64,
    /// Cumulative idle time of the previous reading.
    pub prev_idle: i64,
    /// Cumulative protected-mode time of the previous reading.
    pub prev_protm: i64,
}

impl DeltaLoadSampler {
    pub fn new() -> (r: Self)
        ensures
            r == (DeltaLoadSampler { prev_busy: 0i64, prev_idle: 0i64, prev_protm: 0i64 }),
    {
        Self { prev_busy: 0, prev_idle: 0, prev_protm: 0 }
    }

    /// Fold one reading of the three counters into the sampler and return
    /// the load percentage of the interval since the previous reading, or
    /// nothing when the interval carries no time.
    pub fn update(&mut self, busy: i64, idle: i64, protm: i64) -> (r: Option<i32>)
        ensures
            *final(self) == (DeltaLoadSampler { prev_busy: busy, prev_idle: idle, prev_protm: protm }),
            r == spec_delta_load(
                busy as int - old(self).prev_busy as int,
                idle as int - old(self).prev_idle as int,
                protm as int - old(self).prev_protm as int,
            ),
    {
        let db: i128 = busy as i128 - self.prev_busy as i128;
        let di: i128 = idle as i128 - self.prev_idle as i128;
        let dp: i128 = protm as i128 - self.prev_protm as i128;
        self.prev_busy = busy;
        self.prev_idle = idle;
        self.prev_protm = protm;
        let total: i128 = db + di + dp;
        if total <= 0 {
            return None;
        }
        let num: i128 = db + dp;
        if num <= 0 {
            return Some(0);
        }
        let l: i128 = num * 100 / total;
        if l > i32::MAX as i128 {
            Some(i32::MAX)
        } else {
            Some(l as i32)
        }
    }
}

impl Default for DeltaLoadSampler {
    fn default() -> (r: Self)
        ensures
            r == (DeltaLoadSampler { prev_busy: 0i64, prev_idle: 0i64, prev_protm: 0i64 }),
    {
        Self::new()
    }
}

} // verus!
