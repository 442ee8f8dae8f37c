//! What the notification records say about showing a task's or a group's
//! notifications. The records are read by the caller; these functions
//! decide from what was read.

use vstd::prelude::*;

verus! {

/// The outcome of reading one optional value from the records: the read
/// failed, or it gave the first row's value if there was a row.
pub type RecordRead<T> = Result<Option<T>, ()>;

/// Whether completion notifications are shown, from the visibility read
/// for a task or group: a failed read hides them; no row or a zero mask
/// shows them; otherwise the completion bit (0b01) decides.
pub fn completion_visible(read: RecordRead<i32>) -> (r: bool)
    ensures
        r == match read {
            Err(_) => false,
            Ok(None) => true,
            Ok(Some(v)) => v == 0 || (v & 1) != 0,
        },
{
    match read {
        Err(_) => false,
        Ok(Some(0)) => true,
        Ok(Some(visibility)) => (visibility & 0b01) != 0,
        Ok(None) => true,
    }
}

/// Whether progress notifications are shown, from the visibility read for
/// a task or group and the progress gauge of the task or group: a failed
/// read hides them; no row or a zero mask defers to the gauge; otherwise
/// the progress bit (0b10) decides.
pub fn progress_visible(read: RecordRead<i32>, gauge: bool) -> (r: bool)
    ensures
        r == match read {
            Err(_) => false,
            Ok(None) => gauge,
            Ok(Some(v)) => if v == 0 {
                gauge
            } else {
                (v & 2) != 0
            },
        },
{
    match read {
        Err(_) => false,
        Ok(Some(0)) => gauge,
        Ok(Some(visibility)) => (visibility & 0b10) != 0,
        Ok(None) => gauge,
    }
}

/// Whether notifications are available, from the display flag read for a
/// task or group: shown unless the read succeeded and found the flag off.
pub fn notification_available(read: RecordRead<bool>) -> (r: bool)
    ensures
        r == match read {
            Ok(Some(display)) => display,
            _ => true,
        },
{
    match read {
        Err(_) => true,
        Ok(Some(display)) => display,
        Ok(None) => true,
    }
}

/// A boolean flag of a group (whether it takes tasks, whether it shows
/// progress), from what was read: false unless the read succeeded and
/// found the flag on.
pub fn group_flag(read: RecordRead<bool>) -> (r: bool)
    ensures
        r == match read {
            Ok(Some(flag)) => flag,
            _ => false,
        },
{
    match read {
        Ok(Some(flag)) => flag,
        _ => false,
    }
}

/// The milliseconds in a week: groups older than this with no task are
/// cleared.
pub const MILLIS_IN_A_WEEK: u64 = 604800000;

/// The creation time before which an empty group counts as expired, given
/// the current time.
pub fn expiry_cutoff(current_time: u64) -> (r: u64)
    requires
        current_time >= MILLIS_IN_A_WEEK,
    ensures
        r == current_time - MILLIS_IN_A_WEEK,
{
    current_time - MILLIS_IN_A_WEEK
}

} // verus!
