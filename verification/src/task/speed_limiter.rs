//! Speed limiting of transfers.
//!
//! The limiter watches how many bytes went through in the current window of
//! one second. Once a window has carried as many bytes as the limit allows,
//! it says how long the transfer has to pause so that the average speed over
//! the window comes back to the limit. Sleeping itself is left to the caller.

use vstd::prelude::*;

verus! {

/// Length of one measuring window, in milliseconds.
pub const SPEED_LIMIT_INTERVAL: u64 = 1000;

/// The measuring state of a limiter.
#[derive(Clone, Copy, Debug, PartialEq, Eq, Structural)]
pub struct SpeedLimiter {
    /// Start of the current window in milliseconds; 0 when none started.
    pub last_time: u64,
    /// Bytes transferred in total at the start of the window.
    pub last_size: u64,
    /// Allowed bytes per second; 0 means no limit.
    pub speed_limit: u64,
}

/// Whether a check at `current_time` can run without an arithmetic fault:
/// time and size do not go backwards within a window, and the bytes of a
/// window, counted in thousandths, fit in 64 bits.
pub open spec fn check_defined(l: SpeedLimiter, current_time: u64, current_size: u64) -> bool {
    (l.speed_limit != 0 && l.last_time != 0) ==> {
        &&& current_time >= l.last_time
        &&& current_time - l.last_time < SPEED_LIMIT_INTERVAL ==> {
            &&& current_size >= l.last_size
            &&& current_size - l.last_size >= l.speed_limit ==> (current_size - l.last_size)
                * SPEED_LIMIT_INTERVAL <= u64::MAX
        }
    }
}

/// Whether a check starts a new window: there is a limit, and no window is
/// open or the open one is a full second old.
pub open spec fn starts_window(l: SpeedLimiter, current_time: u64) -> bool {
    l.speed_limit != 0 && (l.last_time == 0 || current_time - l.last_time >= SPEED_LIMIT_INTERVAL)
}

/// How long a transfer must pause, if at all: when the open window has
/// already carried the limit, the time that the window's bytes take at the
/// limit, less the time already spent in it.
pub open spec fn pause_of(l: SpeedLimiter, current_time: u64, current_size: u64) -> Option<u64> {
    if l.speed_limit == 0 || starts_window(l, current_time) {
        None
    } else if current_size - l.last_size >= l.speed_limit {
        Some(
            ((current_size - l.last_size) * SPEED_LIMIT_INTERVAL / (l.speed_limit as int) - (
            current_time - l.last_time)) as u64,
        )
    } else {
        None
    }
}

impl SpeedLimiter {
    /// A limiter with no limit and no window.
    pub fn new() -> (r: Self)
        ensures
            r == (SpeedLimiter { last_time: 0, last_size: 0, speed_limit: 0 }),
    {
        SpeedLimiter { last_time: 0, last_size: 0, speed_limit: 0 }
    }

    /// Sets the limit. A new limit closes the open window; the same limit
    /// changes nothing.
    pub fn update_speed_limit(&mut self, speed_limit: u64)
        ensures
            *final(self) == if old(self).speed_limit != speed_limit {
                SpeedLimiter { last_time: 0, last_size: 0, speed_limit }
            } else {
                *old(self)
            },
    {
        if self.speed_limit != speed_limit {
            self.last_size = 0;
            self.last_time = 0;
            self.speed_limit = speed_limit;
        }
    }

    /// Checks the transfer at `current_time`, with `current_size` bytes
    /// transferred so far. Starts a new window where one is due and returns
    /// how many milliseconds to pause, if the window is over its limit.
    pub fn check_limit(&mut self, current_time: u64, current_size: u64) -> (r: Option<u64>)
        requires
            check_defined(*old(self), current_time, current_size),
        ensures
            r == pause_of(*old(self), current_time, current_size),
            *final(self) == if starts_window(*old(self), current_time) {
                SpeedLimiter {
                    last_time: current_time,
                    last_size: current_size,
                    speed_limit: old(self).speed_limit,
                }
            } else {
                *old(self)
            },
    {
        if self.speed_limit == 0 {
            return None;
        }
        if self.last_time == 0 || current_time - self.last_time >= SPEED_LIMIT_INTERVAL {
            self.last_time = current_time;
            self.last_size = current_size;
            None
        } else if current_size - self.last_size >= self.speed_limit {
            let carried = current_size - self.last_size;
            let elapsed = current_time - self.last_time;
            let window = carried * SPEED_LIMIT_INTERVAL / self.speed_limit;
            let limit = self.speed_limit;
            assert(window >= 1000) by (nonlinear_arith)
                requires
                    carried >= limit,
                    limit > 0,
                    window == carried * 1000 / (limit as int),
            ;
            Some(window - elapsed)
        } else {
            None
        }
    }
}

/// A pause brings the window back to the limit: once the transfer has
/// waited out the pause, the window has lasted just long enough for its
/// bytes at the limit, to the millisecond, rounding down.
pub proof fn lemma_pause_restores_limit(l: SpeedLimiter, current_time: u64, current_size: u64)
    requires
        check_defined(l, current_time, current_size),
        pause_of(l, current_time, current_size) is Some,
    ensures
        ({
            let carried = current_size - l.last_size;
            let waited = (current_time - l.last_time) + pause_of(
                l,
                current_time,
                current_size,
            ).unwrap();
            &&& waited * l.speed_limit <= carried * SPEED_LIMIT_INTERVAL
            &&& carried * SPEED_LIMIT_INTERVAL < (waited + 1) * l.speed_limit
        }),
{
    let carried: int = current_size - l.last_size;
    let elapsed: int = current_time - l.last_time;
    let limit: int = l.speed_limit as int;
    let window: int = carried * 1000 / limit;
    assert(carried >= limit);
    assert(window >= 1000) by (nonlinear_arith)
        requires
            carried >= limit,
            limit > 0,
            window == carried * 1000 / limit,
    ;
    assert(elapsed < 1000);
    assert(pause_of(l, current_time, current_size).unwrap() == window - elapsed);
    assert(window * limit <= carried * 1000 && carried * 1000 < (window + 1) * limit) by (
    nonlinear_arith)
        requires
            limit > 0,
            carried >= 0,
            window == carried * 1000 / limit,
    ;
}

} // verus!
