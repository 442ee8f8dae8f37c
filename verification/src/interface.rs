//! IPC interface codes of the request service, and the command each code
//! stands for.

use vstd::prelude::*;

use crate::text::str_eq;

verus! {

/// Constructs a new request.
pub const CONSTRUCT: u32 = 0;
/// Pauses a specific request.
pub const PAUSE: u32 = 1;
/// Queries information about a request.
pub const QUERY: u32 = 2;
/// Queries the MIME type of a request's content.
pub const QUERY_MIME_TYPE: u32 = 3;
/// Removes a request from the system.
pub const REMOVE: u32 = 4;
/// Resumes a paused request.
pub const RESUME: u32 = 5;
/// Starts a new request.
pub const START: u32 = 6;
/// Stops an active request.
pub const STOP: u32 = 7;
/// Shows a request's details.
pub const SHOW: u32 = 8;
/// Updates a request's last accessed timestamp.
pub const TOUCH: u32 = 9;
/// Searches for requests matching specific criteria.
pub const SEARCH: u32 = 10;
/// Retrieves a task associated with a request.
pub const GET_TASK: u32 = 11;
/// Clears a request from the system.
pub const CLEAR: u32 = 12;
/// Opens a communication channel for request updates.
pub const OPEN_CHANNEL: u32 = 13;
/// Subscribes to updates for a specific request.
pub const SUBSCRIBE: u32 = 14;
/// Unsubscribes from updates for a specific request.
pub const UNSUBSCRIBE: u32 = 15;
/// Subscribes to running task count updates.
pub const SUB_RUN_COUNT: u32 = 16;
/// Unsubscribes from running task count updates.
pub const UNSUB_RUN_COUNT: u32 = 17;
/// Creates a new request group.
pub const CREATE_GROUP: u32 = 18;
/// Attaches a request to an existing group.
pub const ATTACH_GROUP: u32 = 19;
/// Deletes a request group.
pub const DELETE_GROUP: u32 = 20;
/// Sets the maximum speed limit for a task.
pub const SET_MAX_SPEED: u32 = 21;
/// Shows the progress of a task.
pub const SHOW_PROGRESS: u32 = 22;
/// Changes the mode of a task.
pub const SET_MODE: u32 = 100;
/// Disables notifications for a specific task.
pub const DISABLE_TASK_NOTIFICATION: u32 = 101;
/// Code of the client notification interface that reports run count changes.
pub const NOTIFY_RUN_COUNT: u32 = 2;

/// The commands of the request service.
#[derive(Clone, Copy, Debug, PartialEq, Eq, Structural)]
pub enum Command {
    /// Create tasks.
    Construct,
    /// Pause tasks.
    Pause,
    /// Query tasks (system applications).
    Query,
    /// Query the MIME type of a task.
    QueryMimeType,
    /// Remove tasks.
    Remove,
    /// Resume tasks.
    Resume,
    /// Start tasks.
    Start,
    /// Stop tasks.
    Stop,
    /// Show tasks.
    Show,
    /// Show tasks by token.
    Touch,
    /// Search tasks.
    Search,
    /// Get a task's configuration.
    GetTask,
    /// Clear (no effect).
    Clear,
    /// Open the client's channel.
    OpenChannel,
    /// Subscribe to a task.
    Subscribe,
    /// Unsubscribe from a task.
    Unsubscribe,
    /// Subscribe to the run count.
    SubRunCount,
    /// Unsubscribe from the run count.
    UnsubRunCount,
    /// Create a group.
    CreateGroup,
    /// Attach tasks to a group.
    AttachGroup,
    /// Delete a group.
    DeleteGroup,
    /// Limit the speed of tasks.
    SetMaxSpeed,
    /// Change the mode of a task.
    SetMode,
    /// Turn off the notifications of tasks.
    DisableTaskNotification,
}

/// The command that an interface code stands for.
pub open spec fn command_spec(code: u32) -> Option<Command> {
    if code == CONSTRUCT {
        Some(Command::Construct)
    } else if code == PAUSE {
        Some(Command::Pause)
    } else if code == QUERY {
        Some(Command::Query)
    } else if code == QUERY_MIME_TYPE {
        Some(Command::QueryMimeType)
    } else if code == REMOVE {
        Some(Command::Remove)
    } else if code == RESUME {
        Some(Command::Resume)
    } else if code == START {
        Some(Command::Start)
    } else if code == STOP {
        Some(Command::Stop)
    } else if code == SHOW {
        Some(Command::Show)
    } else if code == TOUCH {
        Some(Command::Touch)
    } else if code == SEARCH {
        Some(Command::Search)
    } else if code == GET_TASK {
        Some(Command::GetTask)
    } else if code == CLEAR {
        Some(Command::Clear)
    } else if code == OPEN_CHANNEL {
        Some(Command::OpenChannel)
    } else if code == SUBSCRIBE {
        Some(Command::Subscribe)
    } else if code == UNSUBSCRIBE {
        Some(Command::Unsubscribe)
    } else if code == SUB_RUN_COUNT {
        Some(Command::SubRunCount)
    } else if code == UNSUB_RUN_COUNT {
        Some(Command::UnsubRunCount)
    } else if code == CREATE_GROUP {
        Some(Command::CreateGroup)
    } else if code == ATTACH_GROUP {
        Some(Command::AttachGroup)
    } else if code == DELETE_GROUP {
        Some(Command::DeleteGroup)
    } else if code == SET_MAX_SPEED {
        Some(Command::SetMaxSpeed)
    } else if code == SET_MODE {
        Some(Command::SetMode)
    } else if code == DISABLE_TASK_NOTIFICATION {
        Some(Command::DisableTaskNotification)
    } else {
        None
    }
}

/// The command that an interface code stands for; unknown codes (among
/// them the progress display code, which the service does not serve) are
/// refused.
pub fn command_for_code(code: u32) -> (r: Option<Command>)
    ensures
        r == command_spec(code),
{
    if code == CONSTRUCT {
        Some(Command::Construct)
    } else if code == PAUSE {
        Some(Command::Pause)
    } else if code == QUERY {
        Some(Command::Query)
    } else if code == QUERY_MIME_TYPE {
        Some(Command::QueryMimeType)
    } else if code == REMOVE {
        Some(Command::Remove)
    } else if code == RESUME {
        Some(Command::Resume)
    } else if code == START {
        Some(Command::Start)
    } else if code == STOP {
        Some(Command::Stop)
    } else if code == SHOW {
        Some(Command::Show)
    } else if code == TOUCH {
        Some(Command::Touch)
    } else if code == SEARCH {
        Some(Command::Search)
    } else if code == GET_TASK {
        Some(Command::GetTask)
    } else if code == CLEAR {
        Some(Command::Clear)
    } else if code == OPEN_CHANNEL {
        Some(Command::OpenChannel)
    } else if code == SUBSCRIBE {
        Some(Command::Subscribe)
    } else if code == UNSUBSCRIBE {
        Some(Command::Unsubscribe)
    } else if code == SUB_RUN_COUNT {
        Some(Command::SubRunCount)
    } else if code == UNSUB_RUN_COUNT {
        Some(Command::UnsubRunCount)
    } else if code == CREATE_GROUP {
        Some(Command::CreateGroup)
    } else if code == ATTACH_GROUP {
        Some(Command::AttachGroup)
    } else if code == DELETE_GROUP {
        Some(Command::DeleteGroup)
    } else if code == SET_MAX_SPEED {
        Some(Command::SetMaxSpeed)
    } else if code == SET_MODE {
        Some(Command::SetMode)
    } else if code == DISABLE_TASK_NOTIFICATION {
        Some(Command::DisableTaskNotification)
    } else {
        None
    }
}

/// The interface token that every request to the service carries.
pub fn service_token() -> (r: &'static str)
    ensures
        r@ == "OHOS.Download.RequestServiceInterface"@,
{
    "OHOS.Download.RequestServiceInterface"
}

/// The command a request asks for, when it is served: the request must
/// carry the service's interface token and a known code; anything else is
/// refused.
pub fn accepted_command(token: &str, code: u32) -> (r: Option<Command>)
    ensures
        r == if token@ == "OHOS.Download.RequestServiceInterface"@ {
            command_spec(code)
        } else {
            None
        },
{
    if !str_eq(token, service_token()) {
        return None;
    }
    command_for_code(code)
}

} // verus!
