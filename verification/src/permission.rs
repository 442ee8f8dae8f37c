//! Permission levels for managing other applications' tasks.

use vstd::prelude::*;

use crate::config::Action;

verus! {

/// The level of management permissions of a caller.
#[derive(Clone, Copy, Debug, PartialEq, Eq, Structural)]
pub enum ManagerPermission {
    /// No management permissions.
    NoPermission,
    /// May manage downloads only.
    ManagerDownLoad,
    /// May manage uploads only.
    ManagerUpload,
    /// May manage downloads and uploads.
    ManagerAll,
}

impl ManagerPermission {
    /// The level given by the download and upload management permissions.
    pub fn from_grants(manager_download: bool, manager_upload: bool) -> (r: Self)
        ensures
            r == if manager_download && manager_upload {
                ManagerPermission::ManagerAll
            } else if manager_download {
                ManagerPermission::ManagerDownLoad
            } else if manager_upload {
                ManagerPermission::ManagerUpload
            } else {
                ManagerPermission::NoPermission
            },
    {
        match (manager_download, manager_upload) {
            (true, true) => ManagerPermission::ManagerAll,
            (true, false) => ManagerPermission::ManagerDownLoad,
            (false, true) => ManagerPermission::ManagerUpload,
            (false, false) => ManagerPermission::NoPermission,
        }
    }

    /// The actions this level may manage; none without permissions.
    pub fn get_action(&self) -> (r: Option<Action>)
        ensures
            r == match *self {
                ManagerPermission::NoPermission => None,
                ManagerPermission::ManagerDownLoad => Some(Action::Download),
                ManagerPermission::ManagerUpload => Some(Action::Upload),
                ManagerPermission::ManagerAll => Some(Action::Any),
            },
    {
        match self {
            ManagerPermission::NoPermission => None,
            ManagerPermission::ManagerDownLoad => Some(Action::Download),
            ManagerPermission::ManagerUpload => Some(Action::Upload),
            ManagerPermission::ManagerAll => Some(Action::Any),
        }
    }

    /// Whether a caller allowed `caller_action` may act on a task of
    /// `task_action`: the same action, or any action.
    pub fn check_action(caller_action: Action, task_action: Action) -> (r: bool)
        ensures
            r == (caller_action == task_action || caller_action == Action::Any),
    {
        caller_action == task_action || caller_action == Action::Any
    }
}

/// Whether a caller may act on a task: a manager of any action may, others
/// only on their own tasks.
pub fn permission_or_owner(permission: ManagerPermission, owns_task: bool) -> (r: bool)
    ensures
        r == (permission != ManagerPermission::NoPermission || owns_task),
{
    match permission.get_action() {
        Some(_) => true,
        None => owns_task,
    }
}

} // verus!
