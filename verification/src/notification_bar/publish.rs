//! Decisions of the notification dispatcher: what a progress event
//! carries, how a task's notification gauge is set, and what leaving,
//! joining or closing a group entails.

use vstd::prelude::*;

use super::notify_flow::ProgressNotify;
use crate::config::{Action, Version};
use crate::info::sum_i64;

verus! {

/// The total size of a task's files, when all are known (none negative).
pub open spec fn known_total(sizes: Seq<i64>) -> Option<nat> {
    if exists|i: int| 0 <= i < sizes.len() && #[trigger] sizes[i] < 0 {
        None
    } else {
        Some(sum_i64(sizes) as nat)
    }
}

/// The running sums of the sizes before the first unknown size fit a `u64`.
pub open spec fn known_sums_fit(sizes: Seq<i64>) -> bool {
    forall|k: int|
        0 <= k <= sizes.len() && (forall|j: int| 0 <= j < k ==> #[trigger] sizes[j] >= 0)
            ==> #[trigger] sum_i64(sizes.take(k)) <= u64::MAX
}

proof fn lemma_sum_nonneg(s: Seq<i64>)
    requires
        forall|j: int| 0 <= j < s.len() ==> #[trigger] s[j] >= 0,
    ensures
        sum_i64(s) >= 0,
    decreases s.len(),
{
    if s.len() > 0 {
        lemma_sum_nonneg(s.drop_last());
    }
}

/// The progress event of a running task: its total size when every file
/// size is known, which file it is at when it has several files, and its
/// processed bytes.
pub fn progress_notify_of(
    action: Action,
    task_id: u32,
    uid: u64,
    sizes: &Vec<i64>,
    index: usize,
    total_processed: usize,
    file_name: String,
    version: Version,
) -> (r: ProgressNotify)
    requires
        known_sums_fit(sizes@),
    ensures
        r.action == action,
        r.task_id == task_id,
        r.uid == uid,
        r.processed == total_processed as u64,
        r.total == match known_total(sizes@) {
            Some(t) => Some(t as u64),
            None => None,
        },
        r.multi_upload == if sizes@.len() <= 1 {
            None
        } else {
            Some((index, sizes@.len() as usize))
        },
        r.file_name == file_name,
        r.version == version,
{
    let mut total: u64 = 0;
    let mut known = true;
    let mut i: usize = 0;
    while i < sizes.len() && known
        invariant
            i <= sizes@.len(),
            known_sums_fit(sizes@),
            forall|j: int| 0 <= j < i ==> #[trigger] sizes@[j] >= 0,
            known ==> total == sum_i64(sizes@.take(i as int)),
            !known ==> i < sizes@.len() && sizes@[i as int] < 0,
        decreases sizes@.len() - i, if known { 1int } else { 0int },
    {
        if sizes[i] < 0 {
            known = false;
        } else {
            proof {
                assert(sizes@.take(i + 1).drop_last() == sizes@.take(i as int));
                assert(forall|j: int| 0 <= j < i + 1 ==> #[trigger] sizes@[j] >= 0);
                assert(sum_i64(sizes@.take(i + 1)) <= u64::MAX);
                lemma_sum_nonneg(sizes@.take(i as int));
            }
            total = total + sizes[i] as u64;
            i = i + 1;
        }
    }
    proof {
        if known {
            assert(sizes@.take(sizes@.len() as int) == sizes@);
            assert(!(exists|j: int| 0 <= j < sizes@.len() && #[trigger] sizes@[j] < 0));
            lemma_sum_nonneg(sizes@);
        } else {
            assert(sizes@[i as int] < 0);
        }
    }
    let multi_upload = if sizes.len() <= 1 {
        None
    } else {
        Some((index, sizes.len()))
    };
    ProgressNotify {
        action,
        task_id,
        uid,
        processed: total_processed as u64,
        total: if known {
            Some(total)
        } else {
            None
        },
        multi_upload,
        file_name,
        version,
    }
}

/// Whether a task starts with its progress gauge on: for a task in a group,
/// whether the group's notifications are available; otherwise whether the
/// task itself qualifies for notifications.
pub fn register_gauge(group_available: Option<bool>, task_qualifies: bool) -> (r: bool)
    ensures
        r == match group_available {
            Some(a) => a,
            None => task_qualifies,
        },
{
    match group_available {
        Some(a) => a,
        None => task_qualifies,
    }
}

/// What unregistering a task from notifications entails.
#[derive(Clone, Copy, Debug, PartialEq, Eq, Structural)]
pub struct UnregisterPlan {
    /// Turn the task's progress gauge off.
    pub clear_gauge: bool,
    /// Tell the flow that the task left this group.
    pub leave_group: Option<u32>,
    /// Take down the task's own notification.
    pub cancel: bool,
}

/// What unregistering a task entails, from whether it has a gauge, the
/// group it belongs to and whether the group is to be told: a grouped task
/// leaves its group (and loses its gauge) only when the group is affected;
/// an ungrouped task with a gauge loses the gauge and its notification.
pub fn unregister_plan(has_gauge: bool, group_id: Option<u32>, affect_group: bool) -> (r:
    UnregisterPlan)
    ensures
        r == match group_id {
            Some(gid) => UnregisterPlan {
                clear_gauge: has_gauge && affect_group,
                leave_group: if affect_group {
                    Some(gid)
                } else {
                    None
                },
                cancel: false,
            },
            None => UnregisterPlan { clear_gauge: has_gauge, leave_group: None, cancel: has_gauge },
        },
{
    match group_id {
        Some(gid) => {
            if affect_group {
                UnregisterPlan { clear_gauge: has_gauge, leave_group: Some(gid), cancel: false }
            } else {
                UnregisterPlan { clear_gauge: false, leave_group: None, cancel: false }
            }
        },
        None => {
            if has_gauge {
                UnregisterPlan { clear_gauge: true, leave_group: None, cancel: true }
            } else {
                UnregisterPlan { clear_gauge: false, leave_group: None, cancel: false }
            }
        },
    }
}

/// What attaching tasks to, or closing, a group entails.
#[derive(Clone, Copy, Debug, PartialEq, Eq, Structural)]
pub enum GroupChange {
    /// The group takes no more tasks: refused.
    Refused,
    /// Accepted; the flow is told when the group's notifications are available.
    Accepted {
        /// Whether the notification flow is to be told.
        notify_flow: bool,
    },
}

/// Whether a group change (attaching tasks, closing the group) goes ahead:
/// only for a group that still takes tasks; the flow hears of it when the
/// group's notifications are available.
pub fn group_change(attach_able: bool, group_available: bool) -> (r: GroupChange)
    ensures
        r == if !attach_able {
            GroupChange::Refused
        } else {
            GroupChange::Accepted { notify_flow: group_available }
        },
{
    if !attach_able {
        GroupChange::Refused
    } else {
        GroupChange::Accepted { notify_flow: group_available }
    }
}

/// Whether a newly created group stores custom notification content: only
/// when a title, a text or a click action was given.
pub fn group_has_custom_content(
    title: &Option<String>,
    text: &Option<String>,
    want_agent: &Option<String>,
) -> (r: bool)
    ensures
        r == (title.is_some() || text.is_some() || want_agent.is_some()),
{
    title.is_some() || text.is_some() || want_agent.is_some()
}

} // verus!
