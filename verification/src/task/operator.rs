//! What a running transfer does on each turn of its progress loop: whether it
//! stops, whether the front end and the notification bar hear of its
//! progress, and whether it pauses to keep to its speed limit.

use vstd::prelude::*;

use crate::info::Progress;
use crate::notification_bar::notify_flow::NOTIFY_PROGRESS_INTERVAL;
use crate::task::speed_limiter::{check_defined, pause_of, starts_window, SpeedLimiter};

verus! {

/// Interval between two progress reports to the front end, in milliseconds.
pub const FRONT_NOTIFY_INTERVAL: u64 = 1000;

/// The limit that applies of a system rate limit and a limit the task set
/// itself, 0 meaning none: the one that is set, or the lower of the two.
pub open spec fn effective_limit_of(rate_limiting: u64, max_speed: u64) -> u64 {
    if rate_limiting == 0 {
        max_speed
    } else if max_speed == 0 {
        rate_limiting
    } else if rate_limiting <= max_speed {
        rate_limiting
    } else {
        max_speed
    }
}

/// The speed limit that applies to a task.
pub fn effective_speed_limit(rate_limiting: u64, max_speed: u64) -> (r: u64)
    ensures
        r == effective_limit_of(rate_limiting, max_speed),
{
    if rate_limiting == 0 {
        max_speed
    } else if max_speed == 0 {
        rate_limiting
    } else if rate_limiting <= max_speed {
        rate_limiting
    } else {
        max_speed
    }
}

/// What the progress loop knows about its task at one turn.
#[derive(Clone, Copy, Debug, PartialEq, Eq, Structural)]
pub struct ProgressTick {
    /// Whether the task was asked to stop.
    pub aborted: bool,
    /// The time now, in milliseconds.
    pub current: u64,
    /// When the front end last heard of the task.
    pub last_notify: u64,
    /// Whether the task shows its progress in the notification bar.
    pub background_notify: bool,
    /// When the notification bar last heard of the task.
    pub background_notify_time: u64,
    /// Bytes transferred so far.
    pub total_processed: usize,
    /// The limit that the system sets, 0 for none.
    pub rate_limiting: u64,
    /// The limit that the task set itself, 0 for none.
    pub max_speed: i64,
}

/// What the progress loop does at one turn of a task that goes on.
#[derive(Clone, Copy, Debug, PartialEq, Eq, Structural)]
pub struct TickDecision {
    /// Report progress to the front end, and remember the time.
    pub notify_front: bool,
    /// Report progress to the notification bar, and remember the time.
    pub notify_background: bool,
    /// Pause for this many milliseconds before going on.
    pub pause: Option<u64>,
}

/// Whether the front end is due to hear of the task.
pub open spec fn front_due(t: ProgressTick) -> bool {
    t.current >= t.last_notify + FRONT_NOTIFY_INTERVAL
}

/// Whether the notification bar is due to hear of the task.
pub open spec fn background_due(t: ProgressTick) -> bool {
    t.background_notify && t.current > t.background_notify_time + NOTIFY_PROGRESS_INTERVAL
}

/// The limiter as it stands once the turn's limit is in force.
pub open spec fn limiter_with(l: SpeedLimiter, limit: u64) -> SpeedLimiter {
    if l.speed_limit != limit {
        SpeedLimiter { last_time: 0, last_size: 0, speed_limit: limit }
    } else {
        l
    }
}

/// The limit of a turn: a negative limit of the task reads as its 64-bit
/// pattern, as a cast does.
pub open spec fn tick_limit(t: ProgressTick) -> u64 {
    effective_limit_of(t.rate_limiting, t.max_speed as u64)
}

/// Whether a turn can run without an arithmetic fault.
pub open spec fn tick_defined(l: SpeedLimiter, t: ProgressTick) -> bool {
    &&& t.last_notify + FRONT_NOTIFY_INTERVAL <= u64::MAX
    &&& t.background_notify ==> t.background_notify_time + NOTIFY_PROGRESS_INTERVAL <= u64::MAX
    &&& check_defined(limiter_with(l, tick_limit(t)), t.current, t.total_processed as u64)
}

/// One turn of a task's progress loop: nothing when the task was asked to
/// stop; otherwise which reports are due and how long to pause. The limiter
/// takes the turn's limit and then measures the turn.
pub fn progress_tick(limiter: &mut SpeedLimiter, tick: ProgressTick) -> (r: Option<TickDecision>)
    requires
        !tick.aborted ==> tick_defined(*old(limiter), tick),
    ensures
        tick.aborted ==> r is None && *final(limiter) == *old(limiter),
        !tick.aborted ==> {
            let l = limiter_with(*old(limiter), tick_limit(tick));
            &&& r == Some(
                TickDecision {
                    notify_front: front_due(tick),
                    notify_background: background_due(tick),
                    pause: pause_of(l, tick.current, tick.total_processed as u64),
                },
            )
            &&& *final(limiter) == if starts_window(l, tick.current) {
                SpeedLimiter {
                    last_time: tick.current,
                    last_size: tick.total_processed as u64,
                    speed_limit: l.speed_limit,
                }
            } else {
                l
            }
        },
{
    if tick.aborted {
        return None;
    }
    let notify_front = tick.current >= tick.last_notify + FRONT_NOTIFY_INTERVAL;
    let notify_background = tick.background_notify && tick.current > tick.background_notify_time
        + NOTIFY_PROGRESS_INTERVAL;
    let limit = effective_speed_limit(tick.rate_limiting, tick.max_speed as u64);
    limiter.update_speed_limit(limit);
    let pause = limiter.check_limit(tick.current, tick.total_processed as u64);
    Some(TickDecision { notify_front, notify_background, pause })
}

/// Records `size` bytes written to the task's first file and gives back
/// what the write reports: the bytes written plus those skipped before.
pub fn record_write(progress: &mut Progress, size: usize, skip_size: usize) -> (r: usize)
    requires
        old(progress).processed@.len() > 0,
        old(progress).processed@[0] + size <= usize::MAX,
        old(progress).common_data.total_processed + size <= usize::MAX,
        size + skip_size <= usize::MAX,
    ensures
        r == size + skip_size,
        final(progress).processed@ == old(progress).processed@.update(
            0,
            (old(progress).processed@[0] + size) as usize,
        ),
        final(progress).common_data.total_processed == old(progress).common_data.total_processed
            + size,
        final(progress).common_data.state == old(progress).common_data.state,
        final(progress).common_data.index == old(progress).common_data.index,
        final(progress).sizes@ == old(progress).sizes@,
        final(progress).extras@ == old(progress).extras@,
{
    let first = progress.processed[0] + size;
    progress.processed.set(0, first);
    progress.common_data.total_processed = progress.common_data.total_processed + size;
    size + skip_size
}

} // verus!
