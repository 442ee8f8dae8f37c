//! Statistics of finished tasks, reported when the service unloads.
//!
//! Completed and failed tasks are counted until the next report; a report
//! is made only when something was counted since the last one, and it starts
//! the counts again from zero.

use vstd::prelude::*;

use crate::text::{int_text, i64_to_text, push_str};

verus! {

/// Counts of tasks finished since the last report.
#[derive(Clone, Copy, Debug, PartialEq, Eq, Structural)]
pub struct RequestTaskCount {
    /// Tasks completed.
    pub completed_task_count: i32,
    /// Tasks failed.
    pub failed_task_count: i32,
    /// Whether anything was counted since the last report.
    pub load_state: bool,
}

impl RequestTaskCount {
    /// Nothing counted.
    pub fn new() -> (r: Self)
        ensures
            r == (RequestTaskCount { completed_task_count: 0, failed_task_count: 0, load_state: false }),
    {
        RequestTaskCount { completed_task_count: 0, failed_task_count: 0, load_state: false }
    }

    /// Counts a completed task.
    pub fn task_complete_add(&mut self)
        requires
            old(self).completed_task_count < i32::MAX,
        ensures
            *final(self) == counted(*old(self), seq![true]),
    {
        proof {
            assert(seq![true].drop_last() =~= Seq::<bool>::empty());
            reveal_with_fuel(counted, 2);
        }
        self.completed_task_count = self.completed_task_count + 1;
        self.load_state = true;
    }

    /// Counts a failed task.
    pub fn task_fail_add(&mut self)
        requires
            old(self).failed_task_count < i32::MAX,
        ensures
            *final(self) == counted(*old(self), seq![false]),
    {
        proof {
            assert(seq![false].drop_last() =~= Seq::<bool>::empty());
            reveal_with_fuel(counted, 2);
        }
        self.failed_task_count = self.failed_task_count + 1;
        self.load_state = true;
    }

    /// Takes the report due when the service unloads: the counts of
    /// completed and failed tasks, when anything was counted since the last
    /// report, which then starts again from zero; nothing otherwise.
    pub fn task_unload(&mut self) -> (r: Option<(i32, i32)>)
        ensures
            (r, *final(self)) == unloaded(*old(self)),
            old(self).load_state ==> r == Some(
                (old(self).completed_task_count, old(self).failed_task_count),
            ) && *final(self) == (RequestTaskCount {
                completed_task_count: 0,
                failed_task_count: 0,
                load_state: false,
            }),
            !old(self).load_state ==> r is None && *final(self) == *old(self),
    {
        if self.load_state {
            let counts = (self.completed_task_count, self.failed_task_count);
            self.completed_task_count = 0;
            self.failed_task_count = 0;
            self.load_state = false;
            Some(counts)
        } else {
            None
        }
    }
}

/// Nothing counted.
pub open spec fn no_counts() -> RequestTaskCount {
    RequestTaskCount { completed_task_count: 0, failed_task_count: 0, load_state: false }
}

/// The report taken at an unload, and the counts after it: the counts when
/// anything was counted, which then start again from zero; nothing, and
/// the counts as they were, otherwise.
pub open spec fn unloaded(c: RequestTaskCount) -> (Option<(i32, i32)>, RequestTaskCount) {
    if c.load_state {
        (Some((c.completed_task_count, c.failed_task_count)), no_counts())
    } else {
        (None, c)
    }
}

/// The text of a statistics report.
pub open spec fn statistics_text(completed: i32, failed: i32) -> Seq<char> {
    "Task Completed "@ + int_text(completed as int) + ", failed "@ + int_text(failed as int)
}

/// Writes the text of a statistics report.
pub fn statistics_message(completed: i32, failed: i32) -> (r: String)
    ensures
        r@ == statistics_text(completed, failed),
{
    let mut r = String::new();
    push_str(&mut r, "Task Completed ");
    let c = i64_to_text(completed as i64);
    push_str(&mut r, c.as_str());
    push_str(&mut r, ", failed ");
    let f = i64_to_text(failed as i64);
    push_str(&mut r, f.as_str());
    proof {
        reveal_strlit("Task Completed ");
        reveal_strlit(", failed ");
    }
    r
}

/// The counts after a run of finished tasks, `true` for each that
/// completed and `false` for each that failed.
pub open spec fn counted(start: RequestTaskCount, finished: Seq<bool>) -> RequestTaskCount
    decreases finished.len(),
{
    if finished.len() == 0 {
        start
    } else {
        let c = counted(start, finished.drop_last());
        if finished.last() {
            RequestTaskCount {
                completed_task_count: (c.completed_task_count + 1) as i32,
                load_state: true,
                ..c
            }
        } else {
            RequestTaskCount {
                failed_task_count: (c.failed_task_count + 1) as i32,
                load_state: true,
                ..c
            }
        }
    }
}

/// How many of a run of finished tasks completed.
pub open spec fn completions(finished: Seq<bool>) -> nat
    decreases finished.len(),
{
    if finished.len() == 0 {
        0
    } else {
        completions(finished.drop_last()) + if finished.last() {
            1nat
        } else {
            0nat
        }
    }
}

/// After a report, the next report covers exactly the tasks that finished
/// in between: it holds how many completed and how many failed, there is
/// one exactly when some task finished, and it starts the counts again, so
/// that a report right after it holds nothing.
pub proof fn lemma_report_counts_since_last(finished: Seq<bool>)
    requires
        finished.len() <= i32::MAX,
    ensures
        ({
            let c = counted(no_counts(), finished);
            &&& c.load_state == (finished.len() > 0)
            &&& c.completed_task_count == completions(finished)
            &&& c.failed_task_count == finished.len() - completions(finished)
            &&& unloaded(c).0 == if finished.len() > 0 {
                Some(
                    (
                        completions(finished) as i32,
                        (finished.len() - completions(finished)) as i32,
                    ),
                )
            } else {
                None
            }
            &&& unloaded(c).1 == no_counts()
            &&& unloaded(unloaded(c).1).0 is None
        }),
    decreases finished.len(),
{
    if finished.len() > 0 {
        lemma_report_counts_since_last(finished.drop_last());
        lemma_completions_bounded(finished.drop_last());
    }
}

proof fn lemma_completions_bounded(finished: Seq<bool>)
    ensures
        completions(finished) <= finished.len(),
    decreases finished.len(),
{
    if finished.len() > 0 {
        lemma_completions_bounded(finished.drop_last());
    }
}

} // verus!
