//! Which tasks qualify for notifications, which tasks may join a group,
//! and how the answer to a pause/resume/stop from the notification bar is
//! judged.

use vstd::prelude::*;

use crate::config::{mode_of_code, Mode, Version};
use crate::error::ErrorCode;
use crate::info::{state_code, State};

verus! {

/// Whether a task qualifies for notifications: an API10 background task
/// that wants a progress gauge or a completion notification, or an API9
/// task running in the background.
pub open spec fn qualifies_for_notification(
    version: Version,
    gauge: bool,
    mode: Mode,
    background: bool,
    completed_notify: bool,
) -> bool {
    (version == Version::API10 && mode == Mode::BackGround && (gauge || completed_notify)) || (
    version == Version::API9 && background)
}

/// Decides whether a task qualifies for notifications.
pub fn notification_check_common(
    version: Version,
    gauge: bool,
    mode: Mode,
    background: bool,
    completed_notify: bool,
) -> (r: bool)
    ensures
        r == qualifies_for_notification(version, gauge, mode, background, completed_notify),
{
    version == Version::API10 && mode == Mode::BackGround && (gauge || completed_notify)
        || version == Version::API9 && background
}

/// What was found of a task that is to join a group: its mode and the code
/// of its state, each absent when the task was not found.
#[derive(Clone, Copy, Debug)]
pub struct AttachCandidate {
    /// The mode of the task, if found.
    pub mode: Option<Mode>,
    /// The state code of the task, if found.
    pub state: Option<u8>,
}

/// The verdict on one task that is to join a group: it must exist, run in
/// the background and not have started yet.
pub open spec fn candidate_verdict(c: AttachCandidate) -> Result<(), ErrorCode> {
    match c.mode {
        None => Err(ErrorCode::TaskNotFound),
        Some(m) => if m != Mode::BackGround {
            Err(ErrorCode::TaskModeErr)
        } else {
            match c.state {
                None => Err(ErrorCode::TaskNotFound),
                Some(s) => if s != state_code(State::Initialized) {
                    Err(ErrorCode::TaskStateErr)
                } else {
                    Ok(())
                },
            }
        },
    }
}

/// The first failing verdict among the tasks, in order.
pub open spec fn first_failure(cs: Seq<AttachCandidate>) -> Result<(), ErrorCode>
    decreases cs.len(),
{
    if cs.len() == 0 {
        Ok(())
    } else {
        match candidate_verdict(cs[0]) {
            Err(e) => Err(e),
            Ok(()) => first_failure(cs.skip(1)),
        }
    }
}

/// Checks the tasks that are to join a group, in order, and answers with
/// the first failure: a missing task, a task not in background mode, a
/// task that has already started.
pub fn attach_group_check(candidates: &Vec<AttachCandidate>) -> (r: Result<(), ErrorCode>)
    ensures
        r == first_failure(candidates@),
{
    let mut i: usize = 0;
    assert(candidates@.skip(0) =~= candidates@);
    while i < candidates.len()
        invariant
            i <= candidates@.len(),
            first_failure(candidates@) == first_failure(candidates@.skip(i as int)),
        decreases candidates@.len() - i,
    {
        let c = candidates[i];
        assert(candidates@.skip(i as int).skip(1) =~= candidates@.skip(i + 1));
        match c.mode {
            None => return Err(ErrorCode::TaskNotFound),
            Some(m) => {
                if m != Mode::BackGround {
                    return Err(ErrorCode::TaskModeErr);
                }
            },
        }
        match c.state {
            None => return Err(ErrorCode::TaskNotFound),
            Some(s) => {
                if s != State::Initialized.repr() {
                    return Err(ErrorCode::TaskStateErr);
                }
            },
        }
        i = i + 1;
    }
    Ok(())
}

/// The answer to attaching tasks to a group: the first failing task's
/// error, else `GroupNotFound` if the group refused them, else success.
pub fn attach_group_answer(check: Result<(), ErrorCode>, attached: bool) -> (r: ErrorCode)
    ensures
        r == match check {
            Err(e) => e,
            Ok(()) => if attached {
                ErrorCode::ErrOk
            } else {
                ErrorCode::GroupNotFound
            },
        },
{
    match check {
        Err(e) => e,
        Ok(()) => {
            if attached {
                ErrorCode::ErrOk
            } else {
                ErrorCode::GroupNotFound
            }
        },
    }
}

/// What the notification bar asks of a task.
#[derive(Clone, Copy, Debug, PartialEq, Eq, Structural)]
pub enum TaskAction {
    /// Pause it.
    Pause,
    /// Resume it.
    Resume,
    /// Stop it.
    Stop,
}

/// Carries the pause, resume and stop buttons of the notification bar to
/// the task manager, reached through a handle of type `T`.
pub struct TaskManagerWrapper<T> {
    task_manager: T,
}

impl<T> TaskManagerWrapper<T> {
    /// The handle of the task manager.
    pub closed spec fn task_manager(self) -> T {
        self.task_manager
    }

    /// A wrapper around a handle of the task manager.
    pub fn new(task_manager: T) -> (r: Self)
        ensures
            r.task_manager() == task_manager,
    {
        TaskManagerWrapper { task_manager }
    }

    /// Pauses a task; see `event_inner` for when this succeeds.
    pub fn pause_task<Q: Fn(u32) -> Option<u64>, S: Fn(&T, TaskAction, u64, u32) -> Option<
        ErrorCode,
    >>(&self, task_id: u32, query_uid: Q, send: S) -> (r: bool)
        requires
            query_uid.requires((task_id,)),
            forall|uid: u64| send.requires((&self.task_manager(), TaskAction::Pause, uid, task_id)),
        ensures
            self.event_outcome(task_id, TaskAction::Pause, query_uid, send, r),
    {
        self.event_inner(task_id, TaskAction::Pause, query_uid, send)
    }

    /// Resumes a task; see `event_inner` for when this succeeds.
    pub fn resume_task<Q: Fn(u32) -> Option<u64>, S: Fn(&T, TaskAction, u64, u32) -> Option<
        ErrorCode,
    >>(&self, task_id: u32, query_uid: Q, send: S) -> (r: bool)
        requires
            query_uid.requires((task_id,)),
            forall|uid: u64| send.requires((&self.task_manager(), TaskAction::Resume, uid, task_id)),
        ensures
            self.event_outcome(task_id, TaskAction::Resume, query_uid, send, r),
    {
        self.event_inner(task_id, TaskAction::Resume, query_uid, send)
    }

    /// Stops a task; see `event_inner` for when this succeeds.
    pub fn stop_task<Q: Fn(u32) -> Option<u64>, S: Fn(&T, TaskAction, u64, u32) -> Option<
        ErrorCode,
    >>(&self, task_id: u32, query_uid: Q, send: S) -> (r: bool)
        requires
            query_uid.requires((task_id,)),
            forall|uid: u64| send.requires((&self.task_manager(), TaskAction::Stop, uid, task_id)),
        ensures
            self.event_outcome(task_id, TaskAction::Stop, query_uid, send, r),
    {
        self.event_inner(task_id, TaskAction::Stop, query_uid, send)
    }

    /// What an answer `r` of a button press can be: success only when the
    /// owner of the task was found and the task manager, asked for that
    /// owner, answered success; failure when no owner was found, or when the
    /// task manager gave no answer or another one.
    pub open spec fn event_outcome<
        Q: Fn(u32) -> Option<u64>,
        S: Fn(&T, TaskAction, u64, u32) -> Option<ErrorCode>,
    >(self, task_id: u32, action: TaskAction, query_uid: Q, send: S, r: bool) -> bool {
        if r {
            exists|uid: u64|
                query_uid.ensures((task_id,), Some(uid)) && #[trigger] send.ensures(
                    (&self.task_manager(), action, uid, task_id),
                    Some(ErrorCode::ErrOk),
                )
        } else {
            query_uid.ensures((task_id,), None) || exists|uid: u64, answer: Option<ErrorCode>|
                query_uid.ensures((task_id,), Some(uid)) && #[trigger] send.ensures(
                    (&self.task_manager(), action, uid, task_id),
                    answer,
                ) && answer != Some(ErrorCode::ErrOk)
        }
    }

    /// Finds the owner of the task with `query_uid`, asks the task manager
    /// for `action` with `send`, and tells whether it answered success.
    fn event_inner<Q: Fn(u32) -> Option<u64>, S: Fn(&T, TaskAction, u64, u32) -> Option<
        ErrorCode,
    >>(&self, task_id: u32, action: TaskAction, query_uid: Q, send: S) -> (r: bool)
        requires
            query_uid.requires((task_id,)),
            forall|uid: u64| send.requires((&self.task_manager(), action, uid, task_id)),
        ensures
            self.event_outcome(task_id, action, query_uid, send, r),
    {
        let owner = query_uid(task_id);
        let uid = match owner {
            Some(uid) => uid,
            None => return false,
        };
        let answer = send(&self.task_manager, action, uid, task_id);
        match answer {
            Some(ErrorCode::ErrOk) => true,
            _ => {
                assert(send.ensures((&self.task_manager(), action, uid, task_id), answer));
                false
            },
        }
    }
}

/// Whether a task runs in the background, from the flag read for it: only
/// a read value of 1 means yes.
pub fn background_of(read: Option<i32>) -> (r: bool)
    ensures
        r == (read == Some(1i32)),
{
    match read {
        Some(b) => b == 1,
        None => false,
    }
}

/// The mode of a task from the value read for it, if any.
pub fn mode_from_read(read: Option<i32>) -> (r: Option<Mode>)
    ensures
        r == match read {
            Some(v) => Some(mode_of_code(v as u8)),
            None => None,
        },
{
    match read {
        Some(v) => Some(Mode::from(v as u8)),
        None => None,
    }
}

} // verus!
