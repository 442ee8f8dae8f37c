//! Error codes that the service answers its callers with.

use vstd::prelude::*;

verus! {

/// The outcome of a request, as answered to the caller.
#[derive(Clone, Copy, PartialEq, Eq, Structural, Debug)]
pub enum ErrorCode {
    /// The request succeeded.
    ErrOk,
    /// The caller lacks a permission.
    Permission,
    /// The caller is not a system application.
    SystemApi,
    /// A parameter failed its check.
    ParameterCheck,
    /// A file operation failed.
    FileOperationErr,
    /// Any other failure.
    Other,
    /// The client has not opened its channel.
    ChannelNotOpen,
    /// The task does not exist or is not visible to the caller.
    TaskNotFound,
    /// The task is in the wrong state.
    TaskStateErr,
    /// The task is in the wrong mode.
    TaskModeErr,
    /// The group does not exist or is closed.
    GroupNotFound,
}

} // verus!
