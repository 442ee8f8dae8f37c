//! Progress bookkeeping for notification groups, and the contents of the
//! progress and completion events that drive the notification flow.

use std::collections::HashMap;

use vstd::prelude::*;

use super::typology::{CustomizedNotification, NotifyContent, SystemTexts};
use crate::config::{Action, Version};
use crate::info::{is_terminal, state_code, state_of_code, State};

verus! {

broadcast use vstd::std_specs::hash::group_hash_axioms;

/// The tasks of a map that are in the given state.
pub open spec fn tasks_in(states: Map<u32, State>, s: State) -> Set<u32> {
    states.dom().filter(|k: u32| states[k] == s)
}

/// The sum of the byte counts of a map, over all of its keys.
pub open spec fn progress_sum(m: Map<u32, u64>) -> int {
    m.dom().fold(0int, |acc: int, k: u32| acc + m[k])
}

/// Tracks the progress of the tasks in a notification group: the bytes
/// each task has processed, the state of each task, and how many tasks have
/// completed and failed.
pub struct GroupProgress {
    task_progress: HashMap<u32, u64>,
    total_progress: u64,
    task_state: HashMap<u32, State>,
    successful: usize,
    failed: usize,
}

impl GroupProgress {
    /// Bytes processed per task.
    pub closed spec fn progress_view(self) -> Map<u32, u64> {
        self.task_progress@
    }

    /// State per task.
    pub closed spec fn state_view(self) -> Map<u32, State> {
        self.task_state@
    }

    /// The running total of processed bytes.
    pub closed spec fn total_view(self) -> nat {
        self.total_progress as nat
    }

    /// The count of successfully completed tasks kept by the tracker.
    pub closed spec fn successful_view(self) -> nat {
        self.successful as nat
    }

    /// The count of failed tasks kept by the tracker.
    pub closed spec fn failed_view(self) -> nat {
        self.failed as nat
    }

    /// The internal consistency of the tracker: both maps are finite, the
    /// counts are the numbers of completed and failed tasks, and the running
    /// total is the sum of the per-task byte counts.
    pub closed spec fn wf(self) -> bool {
        &&& self.task_progress@.dom().finite()
        &&& self.task_state@.dom().finite()
        &&& self.successful as nat == tasks_in(self.task_state@, State::Completed).len()
        &&& self.failed as nat == tasks_in(self.task_state@, State::Failed).len()
        &&& self.total_progress as int == progress_sum(self.task_progress@)
    }

    /// The counts are exactly the numbers of completed and failed tasks.
    pub open spec fn counts_consistent(self) -> bool {
        &&& self.successful_view() == tasks_in(self.state_view(), State::Completed).len()
        &&& self.failed_view() == tasks_in(self.state_view(), State::Failed).len()
    }

    /// Creates an empty tracker.
    pub fn new() -> (r: Self)
        ensures
            r.wf(),
            r.progress_view() == Map::<u32, u64>::empty(),
            r.state_view() == Map::<u32, State>::empty(),
            r.total_view() == 0,
            r.counts_consistent(),
            r.successful_view() == 0,
            r.failed_view() == 0,
    {
        let r = GroupProgress {
            task_progress: HashMap::new(),
            total_progress: 0,
            task_state: HashMap::new(),
            successful: 0,
            failed: 0,
        };
        proof {
            assert(tasks_in(r.task_state@, State::Completed) =~= Set::empty());
            assert(tasks_in(r.task_state@, State::Failed) =~= Set::empty());
            lemma_progress_sum_empty();
        }
        r
    }

    /// Records the bytes a task has processed so far; the group total moves
    /// by the difference to what was recorded before (nothing, for a task
    /// not seen yet).
    pub fn update_task_progress(&mut self, task_id: u32, processed: u64)
        requires
            old(self).wf(),
            recorded_progress(old(self).progress_view(), task_id) <= processed,
            old(self).total_view() + processed - recorded_progress(
                old(self).progress_view(),
                task_id,
            ) <= u64::MAX,
        ensures
            final(self).wf(),
            final(self).progress_view() == old(self).progress_view().insert(task_id, processed),
            final(self).state_view() == old(self).state_view(),
            final(self).total_view() == old(self).total_view() + processed - recorded_progress(
                old(self).progress_view(),
                task_id,
            ),
            final(self).successful_view() == old(self).successful_view(),
            final(self).failed_view() == old(self).failed_view(),
    {
        let prev: u64 = match self.task_progress.get(&task_id) {
            Some(p) => *p,
            None => 0,
        };
        proof {
            lemma_progress_sum_insert(self.task_progress@, task_id, processed);
        }
        self.total_progress = self.total_progress + (processed - prev);
        self.task_progress.insert(task_id, processed);
    }

    /// Records the state of a task and moves the completed and failed
    /// counts with it: a task that leaves `Completed` or `Failed` stops
    /// counting there, and a task that enters one of them counts there, so
    /// the counts stay the numbers of completed and failed tasks.
    pub fn update_task_state(&mut self, task_id: u32, state: State)
        requires
            old(self).wf(),
            count_after(old(self).state_view(), task_id, state, State::Completed, old(self).successful_view()) <= usize::MAX,
            count_after(old(self).state_view(), task_id, state, State::Failed, old(self).failed_view()) <= usize::MAX,
        ensures
            final(self).wf(),
            final(self).state_view() == old(self).state_view().insert(task_id, state),
            final(self).progress_view() == old(self).progress_view(),
            final(self).total_view() == old(self).total_view(),
            final(self).successful_view() == count_after(old(self).state_view(), task_id, state, State::Completed, old(self).successful_view()),
            final(self).failed_view() == count_after(old(self).state_view(), task_id, state, State::Failed, old(self).failed_view()),
            final(self).successful_view() == tasks_in(final(self).state_view(), State::Completed).len(),
            final(self).failed_view() == tasks_in(final(self).state_view(), State::Failed).len(),
    {
        let prev: Option<State> = match self.task_state.get(&task_id) {
            Some(p) => Some(*p),
            None => None,
        };
        let ghost old_states = self.task_state@;
        proof {
            lemma_tasks_in_insert(old_states, task_id, state, State::Completed);
            lemma_tasks_in_insert(old_states, task_id, state, State::Failed);
            if old_states.contains_key(task_id) {
                let p = old_states[task_id];
                if p == State::Completed {
                    assert(tasks_in(old_states, State::Completed).contains(task_id));
                }
                if p == State::Failed {
                    assert(tasks_in(old_states, State::Failed).contains(task_id));
                }
            } else {
                assert(!tasks_in(old_states, State::Completed).contains(task_id));
                assert(!tasks_in(old_states, State::Failed).contains(task_id));
            }
        }
        self.task_state.insert(task_id, state);
        let was_completed = match prev {
            Some(State::Completed) => true,
            _ => false,
        };
        let was_failed = match prev {
            Some(State::Failed) => true,
            _ => false,
        };
        if was_completed {
            self.successful = self.successful - 1;
        }
        if was_failed {
            self.failed = self.failed - 1;
        }
        if state == State::Completed {
            self.successful = self.successful + 1;
        } else if state == State::Failed {
            self.failed = self.failed + 1;
        }
    }

    /// Forgets a task that has not finished yet; a finished task, or one
    /// not known, is kept as it is.
    pub fn remove_unfinished_task(&mut self, task_id: u32)
        requires
            old(self).wf(),
        ensures
            final(self).wf(),
            final(self).state_view() == if old(self).state_view().contains_key(task_id)
                && !is_terminal(old(self).state_view()[task_id]) {
                old(self).state_view().remove(task_id)
            } else {
                old(self).state_view()
            },
            final(self).progress_view() == old(self).progress_view(),
            final(self).total_view() == old(self).total_view(),
            final(self).successful_view() == old(self).successful_view(),
            final(self).failed_view() == old(self).failed_view(),
            old(self).counts_consistent() ==> final(self).counts_consistent(),
    {
        let unfinished = match self.task_state.get(&task_id) {
            Some(s) => *s != State::Completed && *s != State::Failed,
            None => false,
        };
        if unfinished {
            let ghost old_states = self.task_state@;
            self.task_state.remove(&task_id);
            proof {
                assert(tasks_in(self.task_state@, State::Completed) =~= tasks_in(
                    old_states,
                    State::Completed,
                ));
                assert(tasks_in(self.task_state@, State::Failed) =~= tasks_in(
                    old_states,
                    State::Failed,
                ));
            }
        }
    }

    /// Takes in what the task database holds of a task: its state and the
    /// bytes it processed. A task the database no longer has, or has as
    /// removed, leaves the group as it is; otherwise its state and then its
    /// progress are recorded.
    pub fn absorb_record(&mut self, task_id: u32, processed: Option<usize>, state: Option<u8>)
        requires
            old(self).wf(),
            processed matches Some(p) ==> recorded_progress(old(self).progress_view(), task_id)
                <= p as u64,
            processed matches Some(p) ==> old(self).total_view() + p as u64 - recorded_progress(
                old(self).progress_view(),
                task_id,
            ) <= u64::MAX,
            state matches Some(s) ==> count_after(
                old(self).state_view(),
                task_id,
                state_of_code(s),
                State::Completed,
                old(self).successful_view(),
            ) <= usize::MAX,
            state matches Some(s) ==> count_after(
                old(self).state_view(),
                task_id,
                state_of_code(s),
                State::Failed,
                old(self).failed_view(),
            ) <= usize::MAX,
        ensures
            final(self).wf(),
            match (processed, state) {
                (Some(p), Some(s)) => if s != state_code(State::Removed) {
                    &&& final(self).state_view() == old(self).state_view().insert(
                        task_id,
                        state_of_code(s),
                    )
                    &&& final(self).progress_view() == old(self).progress_view().insert(
                        task_id,
                        p as u64,
                    )
                    &&& final(self).total_view() == old(self).total_view() + p as u64
                        - recorded_progress(old(self).progress_view(), task_id)
                    &&& final(self).successful_view() == count_after(
                        old(self).state_view(),
                        task_id,
                        state_of_code(s),
                        State::Completed,
                        old(self).successful_view(),
                    )
                    &&& final(self).failed_view() == count_after(
                        old(self).state_view(),
                        task_id,
                        state_of_code(s),
                        State::Failed,
                        old(self).failed_view(),
                    )
                } else {
                    *final(self) == *old(self)
                },
                _ => *final(self) == *old(self),
            },
    {
        let p = match processed {
            Some(p) => p,
            None => return,
        };
        let s = match state {
            Some(s) => s,
            None => return,
        };
        if s == State::Removed.repr() {
            return;
        }
        self.update_task_state(task_id, State::from(s));
        self.update_task_progress(task_id, p as u64);
    }

    /// Whether no task is known.
    pub fn is_empty(&self) -> (r: bool)
        ensures
            r == (self.state_view().dom().len() == 0),
    {
        let r = self.task_state.is_empty();
        proof {
            if !r {
                let k = self.task_state@.dom().choose();
                assert(self.task_state@.dom().contains(k));
            }
        }
        r
    }

    /// The number of successfully completed tasks.
    pub fn successful(&self) -> (r: usize)
        requires
            self.wf(),
        ensures
            r == self.successful_view(),
            r == tasks_in(self.state_view(), State::Completed).len(),
    {
        self.successful
    }

    /// The number of failed tasks.
    pub fn failed(&self) -> (r: usize)
        requires
            self.wf(),
        ensures
            r == self.failed_view(),
            r == tasks_in(self.state_view(), State::Failed).len(),
    {
        self.failed
    }

    /// The number of tasks in the group.
    pub fn total(&self) -> (r: usize)
        requires
            self.wf(),
        ensures
            r == self.state_view().dom().len(),
    {
        self.task_state.len()
    }

    /// The bytes processed by all tasks of the group.
    pub fn processed(&self) -> (r: u64)
        requires
            self.wf(),
        ensures
            r == self.total_view(),
            r == progress_sum(self.progress_view()),
    {
        self.total_progress
    }

    /// Whether every task of the group has completed or failed: the counts
    /// of completed and failed tasks add up to the number of tasks.
    pub fn is_finish(&self) -> (r: bool)
        requires
            self.wf(),
        ensures
            r == (self.state_view().dom().len() == self.successful_view() + self.failed_view()),
            r == (forall|k: u32| #[trigger]
                self.state_view().contains_key(k) ==> is_terminal(self.state_view()[k])),
    {
        let total = self.task_state.len();
        proof {
            lemma_counts_cover_iff_all_terminal(self.state_view());
        }
        total == self.successful + self.failed
    }
}

/// The value of the count of tasks in the terminal state `target` after the
/// task `k` moves to `state`: the task stops counting when it was in
/// `target`, and counts when it is now in `target`.
pub open spec fn count_after(states: Map<u32, State>, k: u32, state: State, target: State, count: nat) -> int {
    count - (if states.contains_key(k) && states[k] == target { 1int } else { 0int }) + (if state
        == target { 1int } else { 0int })
}

/// In every state of a tracker, the counts are the numbers of completed and
/// failed tasks, the group has finished exactly when every task has
/// completed or failed, and the total is the sum of the latest byte count
/// of each task.
pub proof fn lemma_counts_match_states(p: GroupProgress)
    requires
        p.wf(),
    ensures
        p.counts_consistent(),
        (p.state_view().dom().len() == p.successful_view() + p.failed_view()) == (forall|k: u32|
            #[trigger] p.state_view().contains_key(k) ==> is_terminal(p.state_view()[k])),
        p.total_view() == progress_sum(p.progress_view()),
{
    lemma_counts_cover_iff_all_terminal(p.state_view());
}

/// A state change moves each count to the number of tasks in its state
/// afterwards, whatever state the task was in before.
pub proof fn lemma_counts_follow_states(before: GroupProgress, task_id: u32, state: State)
    requires
        before.wf(),
    ensures
        count_after(before.state_view(), task_id, state, State::Completed, before.successful_view())
            == tasks_in(before.state_view().insert(task_id, state), State::Completed).len(),
        count_after(before.state_view(), task_id, state, State::Failed, before.failed_view())
            == tasks_in(before.state_view().insert(task_id, state), State::Failed).len(),
{
    let states = before.state_view();
    lemma_tasks_in_insert(states, task_id, state, State::Completed);
    lemma_tasks_in_insert(states, task_id, state, State::Failed);
    if states.contains_key(task_id) {
        if states[task_id] == State::Completed {
            assert(tasks_in(states, State::Completed).contains(task_id));
        }
        if states[task_id] == State::Failed {
            assert(tasks_in(states, State::Failed).contains(task_id));
        }
    } else {
        assert(!tasks_in(states, State::Completed).contains(task_id));
        assert(!tasks_in(states, State::Failed).contains(task_id));
    }
}

proof fn lemma_count_after_nonneg(p: GroupProgress, k: u32, state: State)
    requires
        p.wf(),
    ensures
        count_after(p.state_view(), k, state, State::Completed, p.successful_view()) >= 0,
        count_after(p.state_view(), k, state, State::Failed, p.failed_view()) >= 0,
{
    let states = p.state_view();
    lemma_tasks_in_bounded(states, State::Completed);
    lemma_tasks_in_bounded(states, State::Failed);
    if states.contains_key(k) {
        if states[k] == State::Completed {
            assert(tasks_in(states, State::Completed).contains(k));
        }
        if states[k] == State::Failed {
            assert(tasks_in(states, State::Failed).contains(k));
        }
    }
}

/// The bytes recorded for a task, zero for a task not seen yet.
pub open spec fn recorded_progress(m: Map<u32, u64>, task_id: u32) -> nat {
    if m.contains_key(task_id) {
        m[task_id] as nat
    } else {
        0
    }
}

proof fn lemma_tasks_in_insert(states: Map<u32, State>, k: u32, v: State, s: State)
    requires
        states.dom().finite(),
    ensures
        tasks_in(states.insert(k, v), s) == if v == s {
            tasks_in(states, s).insert(k)
        } else {
            tasks_in(states, s).remove(k)
        },
        tasks_in(states.insert(k, v), s).finite(),
        tasks_in(states, s).finite(),
{
    if v == s {
        assert(tasks_in(states.insert(k, v), s) =~= tasks_in(states, s).insert(k));
    } else {
        assert(tasks_in(states.insert(k, v), s) =~= tasks_in(states, s).remove(k));
    }
    lemma_tasks_in_bounded(states, s);
    lemma_tasks_in_bounded(states.insert(k, v), s);
}

proof fn lemma_tasks_in_bounded(states: Map<u32, State>, s: State)
    requires
        states.dom().finite(),
    ensures
        tasks_in(states, s).len() <= states.dom().len(),
        tasks_in(states, s).finite(),
{
    assert(tasks_in(states, s).subset_of(states.dom()));
    vstd::set_lib::lemma_len_subset(tasks_in(states, s), states.dom());
}

proof fn lemma_counts_cover_iff_all_terminal(states: Map<u32, State>)
    requires
        states.dom().finite(),
    ensures
        (states.dom().len() == tasks_in(states, State::Completed).len() + tasks_in(
            states,
            State::Failed,
        ).len()) == (forall|k: u32| #[trigger]
            states.contains_key(k) ==> is_terminal(states[k])),
        tasks_in(states, State::Completed).len() + tasks_in(states, State::Failed).len()
            <= states.dom().len(),
{
    let c = tasks_in(states, State::Completed);
    let f = tasks_in(states, State::Failed);
    lemma_tasks_in_bounded(states, State::Completed);
    lemma_tasks_in_bounded(states, State::Failed);
    assert(c.disjoint(f));
    vstd::set_lib::lemma_set_disjoint_lens(c, f);
    let u = c + f;
    assert(u.subset_of(states.dom()));
    vstd::set_lib::lemma_len_subset(u, states.dom());
    if forall|k: u32| #[trigger] states.contains_key(k) ==> is_terminal(states[k]) {
        assert(u =~= states.dom());
    }
    if states.dom().len() == c.len() + f.len() {
        vstd::set_lib::lemma_subset_equality(u, states.dom());
        assert forall|k: u32| #[trigger] states.contains_key(k) implies is_terminal(states[k]) by {
            assert(u.contains(k));
        }
    }
}

proof fn lemma_progress_sum_empty()
    ensures
        progress_sum(Map::<u32, u64>::empty()) == 0,
{
    let m = Map::<u32, u64>::empty();
    assert(m.dom() =~= Set::empty());
    vstd::set::fold::lemma_fold_empty(0int, |acc: int, k: u32| acc + m[k]);
}

/// Folding the byte counts of two maps over a set on which they agree gives
/// the same sum.
proof fn lemma_fold_agree(s: Set<u32>, m1: Map<u32, u64>, m2: Map<u32, u64>)
    requires
        s.finite(),
        forall|k: u32| s.contains(k) ==> m1[k] == m2[k],
    ensures
        s.fold(0int, |acc: int, k: u32| acc + m1[k]) == s.fold(0int, |acc: int, k: u32| acc + m2[k]),
    decreases s.len(),
{
    let f1 = |acc: int, k: u32| acc + m1[k];
    let f2 = |acc: int, k: u32| acc + m2[k];
    assert(vstd::set::fold::is_fun_commutative(f1));
    assert(vstd::set::fold::is_fun_commutative(f2));
    if s.len() == 0 {
        assert(s =~= Set::empty());
        vstd::set::fold::lemma_fold_empty(0int, f1);
        vstd::set::fold::lemma_fold_empty(0int, f2);
    } else {
        let a = s.choose();
        let rest = s.remove(a);
        assert(rest.insert(a) =~= s);
        lemma_fold_agree(rest, m1, m2);
        vstd::set::fold::lemma_fold_insert(rest, 0int, f1, a);
        vstd::set::fold::lemma_fold_insert(rest, 0int, f2, a);
    }
}

/// Setting one task's byte count moves the sum by the difference.
proof fn lemma_progress_sum_insert(m: Map<u32, u64>, k: u32, v: u64)
    requires
        m.dom().finite(),
    ensures
        progress_sum(m.insert(k, v)) == progress_sum(m) - recorded_progress(m, k) + v,
        m.insert(k, v).dom().finite(),
{
    let m2 = m.insert(k, v);
    let f1 = |acc: int, key: u32| acc + m[key];
    let f2 = |acc: int, key: u32| acc + m2[key];
    assert(vstd::set::fold::is_fun_commutative(f1));
    assert(vstd::set::fold::is_fun_commutative(f2));
    let rest = m.dom().remove(k);
    assert(m2.dom().remove(k) =~= rest);
    lemma_fold_agree(rest, m, m2);
    assert(rest.insert(k) =~= m2.dom());
    vstd::set::fold::lemma_fold_insert(rest, 0int, f2, k);
    if m.contains_key(k) {
        assert(rest.insert(k) =~= m.dom());
        vstd::set::fold::lemma_fold_insert(rest, 0int, f1, k);
    } else {
        assert(rest =~= m.dom());
    }
}

/// Progress of a single task, as published to the notification flow.
#[derive(Clone, Debug)]
pub struct ProgressNotify {
    /// Action type (download or upload).
    pub action: Action,
    /// Task identifier.
    pub task_id: u32,
    /// User identifier.
    pub uid: u64,
    /// Number of bytes processed.
    pub processed: u64,
    /// Total bytes to process, if known.
    pub total: Option<u64>,
    /// For multi-file uploads: (current file index, number of files).
    pub multi_upload: Option<(usize, usize)>,
    /// Name of the file being transferred.
    pub file_name: String,
    /// API version in use.
    pub version: Version,
}

/// The end of a single task, as published to the notification flow.
#[derive(Clone, Debug)]
pub struct EventualNotify {
    /// Action type (download or upload).
    pub action: Action,
    /// Task identifier.
    pub task_id: u32,
    /// User identifier.
    pub uid: u64,
    /// Total bytes processed.
    pub processed: u64,
    /// Name of the file.
    pub file_name: String,
    /// Whether the task completed successfully.
    pub is_successful: bool,
}


/// The least time, in milliseconds, between two progress notifications of a
/// group.
pub const NOTIFY_PROGRESS_INTERVAL: u64 = 500;

/// What the notification flow does after handling an event.
#[derive(Debug)]
pub enum FlowOutcome {
    /// Show this notification.
    Publish(NotifyContent),
    /// Take down the notification with this id.
    Cancel(u32),
    /// Nothing to show.
    Nothing,
}

/// Whether a task is shown in a group's notification or in its own.
#[derive(Clone, Copy, Debug, PartialEq, Eq, Structural)]
pub enum NotifyType {
    /// The task belongs to the group with this id.
    Group(u32),
    /// The task has its own notification.
    Task,
}

/// Where a task is shown, from the group it was found in, if any.
pub fn notify_type_of(group_id: Option<u32>) -> (r: NotifyType)
    ensures
        r == match group_id {
            Some(g) => NotifyType::Group(g),
            None => NotifyType::Task,
        },
{
    match group_id {
        Some(g) => NotifyType::Group(g),
        None => NotifyType::Task,
    }
}

/// Whether a new progress notification may be shown at `current`, given
/// when the last one was shown (if ever), and the time to record as the
/// last one: the first one always may; later ones only once the interval
/// has passed, and only then is the time recorded.
pub fn progress_interval_check(last_notify: Option<u64>, current: u64) -> (r: (bool, u64))
    requires
        last_notify matches Some(last) ==> last + NOTIFY_PROGRESS_INTERVAL <= u64::MAX,
    ensures
        r == match last_notify {
            None => (true, current),
            Some(last) => if current < NOTIFY_PROGRESS_INTERVAL + last {
                (false, last)
            } else {
                (true, current)
            },
        },
{
    match last_notify {
        Some(last) => {
            if current < NOTIFY_PROGRESS_INTERVAL + last {
                (false, last)
            } else {
                (true, current)
            }
        },
        None => (true, current),
    }
}

/// Whether a group has ended: it takes no more tasks and all of its tasks
/// are counted as completed or failed.
pub open spec fn group_ended(progress: GroupProgress, attach_able: bool) -> bool {
    !attach_able && progress.state_view().dom().len() == progress.successful_view()
        + progress.failed_view()
}

fn group_eventual_content(
    customized: Option<CustomizedNotification>,
    action: Action,
    group_id: u32,
    uid: u64,
    progress: &GroupProgress,
    texts: &SystemTexts,
) -> (r: NotifyContent)
    requires
        action != Action::Any,
        progress.wf(),
    ensures
        NotifyContent::group_eventual_spec(
            r,
            customized,
            action,
            group_id,
            uid as u32,
            progress.total_view() as u64,
            progress.successful_view() as i32,
            progress.failed_view() as i32,
            *texts,
        ),
{
    let processed = progress.processed();
    let successful = progress.successful();
    let failed = progress.failed();
    NotifyContent::group_eventual_notify(
        customized,
        action,
        group_id,
        uid as u32,
        processed,
        successful as i32,
        failed as i32,
        texts,
    )
}

/// What to show once a task has left a group: a task that had not finished
/// is dropped from the group; an emptied group loses its notification; a
/// group that has ended shows its completion notification, or loses its
/// notification if completions are hidden; otherwise nothing changes.
pub fn unregister_outcome(
    progress: &mut GroupProgress,
    task_id: u32,
    group_id: u32,
    uid: u64,
    attach_able: bool,
    is_completion_visible: bool,
    customized: Option<CustomizedNotification>,
    texts: &SystemTexts,
) -> (r: FlowOutcome)
    requires
        old(progress).wf(),
        old(progress).successful_view() + old(progress).failed_view() <= usize::MAX,
    ensures
        final(progress).wf(),
        final(progress).state_view() == if old(progress).state_view().contains_key(task_id)
            && !is_terminal(old(progress).state_view()[task_id]) {
            old(progress).state_view().remove(task_id)
        } else {
            old(progress).state_view()
        },
        final(progress).successful_view() == old(progress).successful_view(),
        final(progress).failed_view() == old(progress).failed_view(),
        final(progress).progress_view() == old(progress).progress_view(),
        final(progress).total_view() == old(progress).total_view(),
        final(progress).state_view().dom().len() == 0 ==> r == FlowOutcome::Cancel(group_id),
        final(progress).state_view().dom().len() != 0 && !group_ended(*final(progress), attach_able)
            ==> r == FlowOutcome::Nothing,
        final(progress).state_view().dom().len() != 0 && group_ended(*final(progress), attach_able)
            && !is_completion_visible ==> r == FlowOutcome::Cancel(group_id),
        final(progress).state_view().dom().len() != 0 && group_ended(*final(progress), attach_able)
            && is_completion_visible ==> (r matches FlowOutcome::Publish(c) && NotifyContent::group_eventual_spec(
                c,
                customized,
                Action::Download,
                group_id,
                uid as u32,
                final(progress).total_view() as u64,
                final(progress).successful_view() as i32,
                final(progress).failed_view() as i32,
                *texts,
            )),
{
    progress.remove_unfinished_task(task_id);
    if progress.is_empty() {
        return FlowOutcome::Cancel(group_id);
    }
    if !(!attach_able && progress.is_finish()) {
        return FlowOutcome::Nothing;
    }
    if !is_completion_visible {
        return FlowOutcome::Cancel(group_id);
    }
    FlowOutcome::Publish(
        group_eventual_content(customized, Action::Download, group_id, uid, progress, texts),
    )
}

/// What to show when a group is closed: once it has ended, its completion
/// notification, or no notification if completions are hidden; before
/// that, nothing.
pub fn group_eventual_outcome(
    progress: &GroupProgress,
    group_id: u32,
    uid: u64,
    attach_able: bool,
    is_completion_visible: bool,
    customized: Option<CustomizedNotification>,
    texts: &SystemTexts,
) -> (r: FlowOutcome)
    requires
        progress.wf(),
        progress.successful_view() + progress.failed_view() <= usize::MAX,
    ensures
        !group_ended(*progress, attach_able) ==> r == FlowOutcome::Nothing,
        group_ended(*progress, attach_able) && !is_completion_visible ==> r == FlowOutcome::Cancel(
            group_id,
        ),
        group_ended(*progress, attach_able) && is_completion_visible ==> (r matches FlowOutcome::Publish(c)
            && NotifyContent::group_eventual_spec(
            c,
            customized,
            Action::Download,
            group_id,
            uid as u32,
            progress.total_view() as u64,
            progress.successful_view() as i32,
            progress.failed_view() as i32,
            *texts,
        )),
{
    if !(!attach_able && progress.is_finish()) {
        return FlowOutcome::Nothing;
    }
    if !is_completion_visible {
        return FlowOutcome::Cancel(group_id);
    }
    FlowOutcome::Publish(
        group_eventual_content(customized, Action::Download, group_id, uid, progress, texts),
    )
}

/// What to show when a task of a group finishes. A group already known
/// first records the task's bytes and its outcome (completed or failed).
/// Then: a group that has not ended shows its progress notification if
/// progress is visible and nothing otherwise; a group that has ended is to
/// be cleared from the records (the returned flag) and shows its completion
/// notification, or loses its notification if completions are hidden.
pub fn group_completed_outcome(
    progress: &mut GroupProgress,
    known: bool,
    info: &EventualNotify,
    group_id: u32,
    attach_able: bool,
    is_progress_visible: bool,
    is_completion_visible: bool,
    customized: Option<CustomizedNotification>,
    texts: &SystemTexts,
) -> (r: (FlowOutcome, bool))
    requires
        info.action != Action::Any,
        old(progress).wf(),
        known ==> recorded_progress(old(progress).progress_view(), info.task_id) <= info.processed,
        known ==> old(progress).total_view() + info.processed - recorded_progress(
            old(progress).progress_view(),
            info.task_id,
        ) <= u64::MAX,
        known ==> count_after(
            old(progress).state_view(),
            info.task_id,
            if info.is_successful { State::Completed } else { State::Failed },
            State::Completed,
            old(progress).successful_view(),
        ) + count_after(
            old(progress).state_view(),
            info.task_id,
            if info.is_successful { State::Completed } else { State::Failed },
            State::Failed,
            old(progress).failed_view(),
        ) <= usize::MAX,
        !known ==> old(progress).successful_view() + old(progress).failed_view() <= usize::MAX,
    ensures
        final(progress).wf(),
        known ==> final(progress).progress_view() == old(progress).progress_view().insert(
            info.task_id,
            info.processed,
        ),
        known ==> final(progress).state_view() == old(progress).state_view().insert(
            info.task_id,
            if info.is_successful { State::Completed } else { State::Failed },
        ),
        !known ==> *final(progress) == *old(progress),
        r.1 == group_ended(*final(progress), attach_able),
        !group_ended(*final(progress), attach_able) && is_progress_visible ==> (r.0 matches FlowOutcome::Publish(c)
            && NotifyContent::group_progress_spec(
            c,
            customized,
            info.action,
            group_id,
            info.uid as u32,
            *final(progress),
            *texts,
        )),
        !group_ended(*final(progress), attach_able) && !is_progress_visible ==> r.0 == FlowOutcome::Nothing,
        group_ended(*final(progress), attach_able) && !is_completion_visible ==> r.0 == FlowOutcome::Cancel(
            group_id,
        ),
        group_ended(*final(progress), attach_able) && is_completion_visible ==> (r.0 matches FlowOutcome::Publish(c)
            && NotifyContent::group_eventual_spec(
            c,
            customized,
            info.action,
            group_id,
            info.uid as u32,
            final(progress).total_view() as u64,
            final(progress).successful_view() as i32,
            final(progress).failed_view() as i32,
            *texts,
        )),
{
    if known {
        proof {
            lemma_count_after_nonneg(*progress, info.task_id, State::Completed);
            lemma_count_after_nonneg(*progress, info.task_id, State::Failed);
        }
        progress.update_task_progress(info.task_id, info.processed);
        if info.is_successful {
            progress.update_task_state(info.task_id, State::Completed);
        } else {
            progress.update_task_state(info.task_id, State::Failed);
        }
    }
    let ended = !attach_able && progress.is_finish();
    if !ended {
        if is_progress_visible {
            let content = NotifyContent::group_progress_notify(
                customized,
                info.action,
                group_id,
                info.uid as u32,
                progress,
                texts,
            );
            return (FlowOutcome::Publish(content), false);
        }
        return (FlowOutcome::Nothing, false);
    }
    if !is_completion_visible {
        return (FlowOutcome::Cancel(group_id), true);
    }
    let content = group_eventual_content(
        customized,
        info.action,
        group_id,
        info.uid,
        progress,
        texts,
    );
    (FlowOutcome::Publish(content), true)
}

/// What to show when a task with its own notification finishes: nothing
/// and a removed notification if completions are hidden, otherwise its
/// completion notification; the returned flag says whether the task's
/// notification records are to be cleared (after a success).
pub fn task_completed_outcome(
    info: &EventualNotify,
    is_completion_visible: bool,
    customized: Option<CustomizedNotification>,
    texts: &SystemTexts,
) -> (r: (FlowOutcome, bool))
    requires
        info.action != Action::Any,
    ensures
        !is_completion_visible ==> r == (FlowOutcome::Cancel(info.task_id), false),
        is_completion_visible ==> (r.0 matches FlowOutcome::Publish(c)
            && NotifyContent::task_eventual_spec(
            c,
            customized,
            info.action,
            info.task_id,
            info.uid as u32,
            info.file_name,
            info.is_successful,
            *texts,
        )),
        is_completion_visible ==> r.1 == info.is_successful,
{
    if !is_completion_visible {
        return (FlowOutcome::Cancel(info.task_id), false);
    }
    let content = NotifyContent::task_eventual_notify(
        customized,
        info.action,
        info.task_id,
        info.uid as u32,
        info.file_name.clone(),
        info.is_successful,
        texts,
    );
    (FlowOutcome::Publish(content), info.is_successful)
}

/// What to show when a task of a group reports progress: nothing while
/// group progress is hidden (and the tracker is left alone); otherwise the
/// tracker records the task's bytes, and the group's progress notification
/// is shown if the interval since the last one has passed.
pub fn group_progress_outcome(
    progress: &mut GroupProgress,
    info: &ProgressNotify,
    group_id: u32,
    is_progress_visible: bool,
    interval_passed: bool,
    customized: Option<CustomizedNotification>,
    texts: &SystemTexts,
) -> (r: FlowOutcome)
    requires
        info.action != Action::Any,
        old(progress).wf(),
        old(progress).successful_view() + old(progress).failed_view() <= usize::MAX,
        is_progress_visible ==> recorded_progress(old(progress).progress_view(), info.task_id) <= info.processed,
        is_progress_visible ==> old(progress).total_view() + info.processed - recorded_progress(
            old(progress).progress_view(),
            info.task_id,
        ) <= u64::MAX,
    ensures
        final(progress).wf(),
        !is_progress_visible ==> *final(progress) == *old(progress) && r == FlowOutcome::Nothing,
        is_progress_visible ==> final(progress).progress_view() == old(progress).progress_view().insert(
            info.task_id,
            info.processed,
        ),
        is_progress_visible ==> final(progress).state_view() == old(progress).state_view(),
        is_progress_visible && !interval_passed ==> r == FlowOutcome::Nothing,
        is_progress_visible && interval_passed ==> (r matches FlowOutcome::Publish(c)
            && NotifyContent::group_progress_spec(
            c,
            customized,
            info.action,
            group_id,
            info.uid as u32,
            *final(progress),
            *texts,
        )),
{
    if !is_progress_visible {
        return FlowOutcome::Nothing;
    }
    progress.update_task_progress(info.task_id, info.processed);
    if !interval_passed {
        return FlowOutcome::Nothing;
    }
    FlowOutcome::Publish(
        NotifyContent::group_progress_notify(
            customized,
            info.action,
            group_id,
            info.uid as u32,
            progress,
            texts,
        ),
    )
}

/// What to show when a task with its own notification reports progress:
/// for API9 tasks, their notification when their progress gauge is on;
/// for API10 tasks, their notification when progress is visible.
pub fn task_progress_outcome(
    info: &ProgressNotify,
    gauge: Option<bool>,
    is_progress_visible: bool,
    customized: Option<CustomizedNotification>,
    texts: &SystemTexts,
) -> (r: FlowOutcome)
    requires
        info.action != Action::Any,
        info.processed * 100 <= u64::MAX,
        info.total matches Some(t) ==> (t > 0 ==> (info.processed * 100 % (t as int)) * 100 <= u64::MAX),
    ensures
        (if info.version == Version::API9 {
            gauge == Some(true)
        } else {
            is_progress_visible
        }) ==> (r matches FlowOutcome::Publish(c) && NotifyContent::task_progress_spec(
            c,
            customized,
            *info,
            *texts,
        )),
        !(if info.version == Version::API9 {
            gauge == Some(true)
        } else {
            is_progress_visible
        }) ==> r == FlowOutcome::Nothing,
{
    let show = if info.version == Version::API9 {
        match gauge {
            Some(g) => g,
            None => false,
        }
    } else {
        is_progress_visible
    };
    if !show {
        return FlowOutcome::Nothing;
    }
    FlowOutcome::Publish(NotifyContent::task_progress_notify(customized, info, texts))
}

/// What to show after tasks were attached to a group: the group's progress
/// notification if group progress is visible, nothing otherwise.
pub fn attach_group_outcome(
    progress: &GroupProgress,
    group_id: u32,
    uid: u64,
    is_progress_visible: bool,
    customized: Option<CustomizedNotification>,
    texts: &SystemTexts,
) -> (r: FlowOutcome)
    requires
        progress.wf(),
        progress.successful_view() + progress.failed_view() <= usize::MAX,
    ensures
        !is_progress_visible ==> r == FlowOutcome::Nothing,
        is_progress_visible ==> (r matches FlowOutcome::Publish(c) && NotifyContent::group_progress_spec(
            c,
            customized,
            Action::Download,
            group_id,
            uid as u32,
            *progress,
            *texts,
        )),
{
    if !is_progress_visible {
        return FlowOutcome::Nothing;
    }
    FlowOutcome::Publish(
        NotifyContent::group_progress_notify(
            customized,
            Action::Download,
            group_id,
            uid as u32,
            progress,
            texts,
        ),
    )
}

} // verus!
