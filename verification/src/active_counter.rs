//! A counter of operations in progress, shared between its clones.
//!
//! The service asks it whether anything is still going on before it lets
//! itself become idle. Every clone of a counter works on the same count.

use std::sync::atomic::{AtomicU32, Ordering};
use std::sync::Arc;

use vstd::prelude::*;

verus! {

/// Whether a count read from the counter means that something is active.
pub fn count_is_active(count: u32) -> (r: bool)
    ensures
        r == (count > 0),
{
    count > 0
}

/// A shared count of the operations in progress.
///
/// The count lives behind an `Arc`, so a clone sees and changes the same
/// count. Other holders may change it at any moment, so what a read gives
/// back is not known in advance; the increments and decrements wrap.
#[derive(Clone)]
pub struct ActiveCounter {
    count: Arc<AtomicU32>,
}

impl ActiveCounter {
    /// A counter at zero, not active.
    pub fn new() -> (r: Self) {
        ActiveCounter { count: Arc::new(AtomicU32::new(0)) }
    }

    /// Records that one more operation started.
    pub fn increment(&self) {
        let _previous = self.count.fetch_add(1, Ordering::Relaxed);
    }

    /// Records that one operation ended; below zero the count wraps.
    pub fn decrement(&self) {
        let _previous = self.count.fetch_sub(1, Ordering::Relaxed);
    }

    /// Whether any operation is in progress: the count, read now, is above
    /// zero.
    pub fn is_active(&self) -> (r: bool) {
        let count = self.count.load(Ordering::Relaxed);
        count_is_active(count)
    }
}

} // verus!
