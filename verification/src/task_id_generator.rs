//! Ids for new tasks.

use vstd::prelude::*;

verus! {

/// Draws a number with `rand::random::<u32>()`, which takes it from the
/// thread's random generator. Any `u32` may come back, so nothing is
/// stated of it.
#[verifier::external_body]
fn random_u32() -> (r: u32) {
    rand::random::<u32>()
}

/// Makes ids for new tasks.
pub struct TaskIdGenerator;

impl TaskIdGenerator {
    /// A new task id, drawn at random.
    pub fn generate() -> (r: u32) {
        random_u32()
    }
}

} // verus!
