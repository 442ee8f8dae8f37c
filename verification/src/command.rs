//! Checks shared by the commands of the request service: batch limits,
//! reading task ids, who may act on a task, and how answers are recorded.

use vstd::prelude::*;

use crate::config::{Action, Mode, Version};
use crate::permission::ManagerPermission;
use crate::error::ErrorCode;
use crate::text::{all_digits, chars_of, digits_to_u64, digits_value};

verus! {

/// Maximum number of tasks in one control request.
pub const CONTROL_MAX: usize = 500;

/// Maximum number of tasks in one information request.
pub const GET_INFO_MAX: usize = 200;

/// Maximum number of tasks in one construction request.
pub const CONSTRUCT_MAX: usize = 100;

/// The least speed limit, in bytes per second, that may be set.
pub const MIN_SPEED_LIMIT: i64 = 16384;

/// Sets the answer at `index`; an index out of range changes nothing.
pub fn set_code_with_index(vec: &mut Vec<ErrorCode>, index: usize, code: ErrorCode)
    ensures
        final(vec)@ == if index < old(vec)@.len() {
            old(vec)@.update(index as int, code)
        } else {
            old(vec)@
        },
{
    if index < vec.len() {
        vec.set(index, code);
    }
}

/// Sets the answer of the pair at `index`, keeping its value; an index out
/// of range changes nothing.
pub fn set_code_with_index_other<T>(vec: &mut Vec<(ErrorCode, T)>, index: usize, code: ErrorCode)
    ensures
        final(vec)@.len() == old(vec)@.len(),
        forall|i: int|
            0 <= i < old(vec)@.len() && i != index ==> #[trigger] final(vec)@[i] == old(vec)@[i],
        index < old(vec)@.len() ==> final(vec)@[index as int].0 == code && final(vec)@[index as int].1
            == old(vec)@[index as int].1,
{
    if index < vec.len() {
        let (_, value) = vec.remove(index);
        vec.insert(index, (code, value));
    }
}

/// The digits of a task id string: what follows an optional leading `+`.
pub open spec fn id_digits(s: Seq<char>) -> Seq<char> {
    if s.len() > 0 && s[0] == '+' {
        s.skip(1)
    } else {
        s
    }
}

/// The number a task id string stands for: an optional `+`, then one or
/// more decimal digits, of value at most `u32::MAX`; anything else is not a
/// task id.
pub open spec fn task_id_of(s: Seq<char>) -> Option<u32> {
    let d = id_digits(s);
    if d.len() > 0 && all_digits(d) && digits_value(d) <= u32::MAX {
        Some(digits_value(d) as u32)
    } else {
        None
    }
}

/// Reads a task id from its decimal writing.
pub fn parse_task_id(s: &str) -> (r: Option<u32>)
    ensures
        r == task_id_of(s@),
{
    let chars = chars_of(s);
    let start: usize = if chars.len() > 0 && chars[0] == '+' {
        1
    } else {
        0
    };
    assert(id_digits(s@) =~= chars@.skip(start as int));
    match digits_to_u64(&chars, start, 0xffff_ffffu64) {
        Some(v) => Some(v as u32),
        None => None,
    }
}

/// Who a task belongs to, if the caller may act on it: the task must exist,
/// belong to the current account, and belong to the caller unless the
/// caller holds the download management permission. A refusal looks like
/// a missing task.
pub fn access_verdict(
    task_uid: Option<u64>,
    current_account: bool,
    caller_uid: u64,
    permission: bool,
) -> (r: Result<u64, ErrorCode>)
    ensures
        r == match task_uid {
            None => Err(ErrorCode::TaskNotFound),
            Some(uid) => if !current_account || (uid != caller_uid && !permission) {
                Err(ErrorCode::TaskNotFound)
            } else {
                Ok(uid)
            },
        },
{
    match task_uid {
        None => Err(ErrorCode::TaskNotFound),
        Some(uid) => {
            if !current_account {
                Err(ErrorCode::TaskNotFound)
            } else if uid != caller_uid && !permission {
                Err(ErrorCode::TaskNotFound)
            } else {
                Ok(uid)
            }
        },
    }
}

/// The answer for one task of a control request: a message the task
/// manager did not take, or an answer it did not give, is `Other`;
/// otherwise its answer.
pub fn manager_answer(sent: bool, answer: Option<ErrorCode>) -> (r: ErrorCode)
    ensures
        r == if !sent {
            ErrorCode::Other
        } else {
            match answer {
                Some(a) => a,
                None => ErrorCode::Other,
            }
        },
{
    if !sent {
        return ErrorCode::Other;
    }
    match answer {
        Some(a) => a,
        None => ErrorCode::Other,
    }
}

/// Whether a batch of `len` tasks is within the limit `max`.
pub fn batch_within(len: usize, max: usize) -> (r: bool)
    ensures
        r == (len <= max),
{
    len <= max
}

/// Whether a caller may start tasks or create them: it needs the internet
/// permission or the download management permission.
pub fn may_start(internet: bool, download_permission: bool) -> (r: bool)
    ensures
        r == (internet || download_permission),
{
    internet || download_permission
}

/// Whether a caller may pause or resume tasks: API9 callers need the
/// internet permission.
pub fn may_pause(version: Version, internet: bool) -> (r: bool)
    ensures
        r == !(version == Version::API9 && !internet),
{
    !(version == Version::API9 && !internet)
}

/// Whether a caller may remove or stop tasks: API9 callers need the
/// internet permission or the download management permission.
pub fn may_remove(version: Version, internet: bool, download_permission: bool) -> (r: bool)
    ensures
        r == !(version == Version::API9 && !internet && !download_permission),
{
    !(version == Version::API9 && !internet && !download_permission)
}

/// Whether a speed limit may be set: at least 16 KiB per second.
pub fn speed_limit_valid(max_speed: i64) -> (r: bool)
    ensures
        r == (max_speed >= MIN_SPEED_LIMIT),
{
    max_speed >= MIN_SPEED_LIMIT
}

/// Who a speed limit applies to: with the management permission, the task's
/// owner (which must exist); without it, the caller, who must own the task.
pub fn speed_limit_owner(permission: bool, task_uid: Option<u64>, caller_uid: u64) -> (r: Result<
    u64,
    ErrorCode,
>)
    ensures
        r == if permission {
            match task_uid {
                Some(uid) => Ok(uid),
                None => Err(ErrorCode::TaskNotFound),
            }
        } else if task_uid == Some(caller_uid) {
            Ok(caller_uid)
        } else {
            Err(ErrorCode::TaskNotFound)
        },
{
    if permission {
        match task_uid {
            Some(uid) => Ok(uid),
            None => Err(ErrorCode::TaskNotFound),
        }
    } else {
        match task_uid {
            Some(uid) => {
                if uid == caller_uid {
                    Ok(caller_uid)
                } else {
                    Err(ErrorCode::TaskNotFound)
                }
            },
            None => Err(ErrorCode::TaskNotFound),
        }
    }
}

/// Whether changing a task's mode has anything to do: not when the mode
/// stays or when the wildcard is asked for.
pub fn mode_change_needed(old_mode: Mode, mode: Mode) -> (r: bool)
    ensures
        r == !(old_mode == mode || mode == Mode::Any),
{
    !(old_mode == mode || mode == Mode::Any)
}

/// What happens to a new task whose application asked to switch its
/// notifications off.
#[derive(Clone, Copy, Debug, PartialEq, Eq, Structural)]
pub enum NotificationSwitch {
    /// Notifications stay as they are.
    Keep,
    /// Notifications of the task are switched off.
    Disable,
    /// The request is refused for lack of permission.
    Refuse,
}

/// What happens to a new task's notifications: they are switched off only
/// when a system application asks; without the permission to do so the
/// request is refused; only background tasks are switched off.
pub open spec fn switch_of(
    disable: bool,
    is_system_api: bool,
    notification_permission: bool,
    mode: Mode,
) -> NotificationSwitch {
    if !(disable && is_system_api) {
        NotificationSwitch::Keep
    } else if !notification_permission {
        NotificationSwitch::Refuse
    } else if mode == Mode::BackGround {
        NotificationSwitch::Disable
    } else {
        NotificationSwitch::Keep
    }
}

/// Decides what happens to a new task's notifications; see `switch_of`.
pub fn notification_switch(
    disable: bool,
    is_system_api: bool,
    notification_permission: bool,
    mode: Mode,
) -> (r: NotificationSwitch)
    ensures
        r == switch_of(disable, is_system_api, notification_permission, mode),
{
    if !(disable && is_system_api) {
        NotificationSwitch::Keep
    } else if !notification_permission {
        NotificationSwitch::Refuse
    } else if mode == Mode::BackGround {
        NotificationSwitch::Disable
    } else {
        NotificationSwitch::Keep
    }
}

/// Whether a new group's notifications are switched off: only when asked by
/// a system application that holds the permission to do so.
pub fn group_disable(disable: bool, is_system_api: bool, permission: bool) -> (r: bool)
    ensures
        r == (disable && is_system_api && permission),
{
    disable && is_system_api && permission
}

/// The answer to deleting a group: it must have been found.
pub fn delete_group_answer(deleted: bool) -> (r: ErrorCode)
    ensures
        r == if deleted {
            ErrorCode::ErrOk
        } else {
            ErrorCode::GroupNotFound
        },
{
    if deleted {
        ErrorCode::ErrOk
    } else {
        ErrorCode::GroupNotFound
    }
}

/// Reads a request to attach tasks to a group: the group id, then the id
/// of each task, which `owned` must confirm belongs to the caller. A group
/// id that is no number names no group; the first task id that is no
/// number, or whose task is not the caller's, names no task.
pub fn attach_request<F: Fn(u32) -> bool>(group: &str, task_ids: &Vec<String>, owned: F) -> (r:
    Result<(u32, Vec<u32>), ErrorCode>)
    requires
        forall|id: u32| owned.requires((id,)),
    ensures
        task_id_of(group@) is None <==> r == Err::<(u32, Vec<u32>), ErrorCode>(
            ErrorCode::GroupNotFound,
        ),
        r is Err ==> r == Err::<(u32, Vec<u32>), ErrorCode>(ErrorCode::GroupNotFound) || r
            == Err::<(u32, Vec<u32>), ErrorCode>(ErrorCode::TaskNotFound),
        r is Err && task_id_of(group@) is Some ==> exists|i: int|
            0 <= i < task_ids@.len() && (task_id_of(#[trigger] task_ids@[i]@) is None
                || owned.ensures((task_id_of(task_ids@[i]@).unwrap(),), false)),
        r matches Ok((g, ids)) ==> {
            &&& task_id_of(group@) == Some(g)
            &&& ids@.len() == task_ids@.len()
            &&& forall|i: int|
                0 <= i < ids@.len() ==> task_id_of(task_ids@[i]@) == Some(#[trigger] ids@[i])
                    && owned.ensures((ids@[i],), true)
        },
{
    let g = match parse_task_id(group) {
        Some(g) => g,
        None => return Err(ErrorCode::GroupNotFound),
    };
    let mut ids: Vec<u32> = Vec::new();
    let mut i: usize = 0;
    while i < task_ids.len()
        invariant
            forall|id: u32| owned.requires((id,)),
            task_id_of(group@) == Some(g),
            i <= task_ids@.len(),
            ids@.len() == i,
            forall|j: int|
                0 <= j < i ==> task_id_of(task_ids@[j]@) == Some(#[trigger] ids@[j])
                    && owned.ensures((ids@[j],), true),
        decreases task_ids@.len() - i,
    {
        let id = match parse_task_id(task_ids[i].as_str()) {
            Some(id) => id,
            None => {
                assert(task_id_of(task_ids@[i as int]@) is None);
                return Err(ErrorCode::TaskNotFound);
            },
        };
        if !owned(id) {
            assert(task_id_of(task_ids@[i as int]@) == Some(id));
            return Err(ErrorCode::TaskNotFound);
        }
        ids.push(id);
        i = i + 1;
    }
    Ok((g, ids))
}

/// Whether the notifications of a task may be switched off by the caller:
/// always for its own task; for another's, with the permission to manage
/// its action, which must be known.
pub fn notification_disable_check(
    owns: bool,
    permission: ManagerPermission,
    action: Option<Action>,
) -> (r: Result<(), ErrorCode>)
    ensures
        r == if owns {
            Ok(())
        } else {
            match permission {
                ManagerPermission::ManagerAll => Ok(()),
                ManagerPermission::NoPermission => Err(ErrorCode::Permission),
                ManagerPermission::ManagerDownLoad => match action {
                    None => Err(ErrorCode::TaskNotFound),
                    Some(a) => if a == Action::Download {
                        Ok(())
                    } else {
                        Err(ErrorCode::Permission)
                    },
                },
                ManagerPermission::ManagerUpload => match action {
                    None => Err(ErrorCode::TaskNotFound),
                    Some(a) => if a == Action::Upload {
                        Ok(())
                    } else {
                        Err(ErrorCode::Permission)
                    },
                },
            }
        },
{
    if owns {
        return Ok(());
    }
    match permission {
        ManagerPermission::ManagerAll => Ok(()),
        ManagerPermission::NoPermission => Err(ErrorCode::Permission),
        ManagerPermission::ManagerDownLoad => match action {
            None => Err(ErrorCode::TaskNotFound),
            Some(a) => {
                if a == Action::Download {
                    Ok(())
                } else {
                    Err(ErrorCode::Permission)
                }
            },
        },
        ManagerPermission::ManagerUpload => match action {
            None => Err(ErrorCode::TaskNotFound),
            Some(a) => {
                if a == Action::Upload {
                    Ok(())
                } else {
                    Err(ErrorCode::Permission)
                }
            },
        },
    }
}

/// The first checks of one task of a speed-limit request: the speed must
/// reach the least limit, then the id must be a number.
pub fn max_speed_precheck(task_id: &str, max_speed: i64) -> (r: Result<u32, ErrorCode>)
    ensures
        r == if max_speed < MIN_SPEED_LIMIT {
            Err(ErrorCode::ParameterCheck)
        } else {
            match task_id_of(task_id@) {
                Some(id) => Ok(id),
                None => Err(ErrorCode::TaskNotFound),
            }
        },
{
    if max_speed < MIN_SPEED_LIMIT {
        return Err(ErrorCode::ParameterCheck);
    }
    match parse_task_id(task_id) {
        Some(id) => Ok(id),
        None => Err(ErrorCode::TaskNotFound),
    }
}

/// The answers a batch of `len` tasks starts with: a failure for each,
/// until the task is handled; none when the batch is over `max`.
pub fn start_batch(len: usize, max: usize) -> (r: Option<Vec<ErrorCode>>)
    ensures
        len > max ==> r is None,
        len <= max ==> (r matches Some(v) && v@ == Seq::new(len as nat, |i: int| ErrorCode::Other)),
{
    if len > max {
        return None;
    }
    let mut v: Vec<ErrorCode> = Vec::new();
    let mut i: usize = 0;
    while i < len
        invariant
            i <= len,
            v@ == Seq::new(i as nat, |j: int| ErrorCode::Other),
        decreases len - i,
    {
        v.push(ErrorCode::Other);
        i = i + 1;
    }
    Some(v)
}

} // verus!
