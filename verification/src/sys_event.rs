//! The kinds of system events the service reports.

use vstd::prelude::*;

verus! {

/// The kinds of system events.
#[derive(Clone, Copy, Debug, PartialEq, Eq, Structural)]
pub enum EventKind {
    /// A task failed.
    TaskFault,
    /// An operation met an error.
    ExecError,
    /// An operation met a fault.
    ExecFault,
}

/// The name a system event kind is reported under.
pub open spec fn event_name(kind: EventKind) -> Seq<char> {
    match kind {
        EventKind::TaskFault => "TASK_FAULT"@,
        EventKind::ExecError => "EXEC_ERROR"@,
        EventKind::ExecFault => "EXEC_FAULT"@,
    }
}

impl EventKind {
    /// The name this kind is reported under.
    pub fn as_str(&self) -> (r: &'static str)
        ensures
            r@ == event_name(*self),
    {
        match self {
            EventKind::TaskFault => "TASK_FAULT",
            EventKind::ExecError => "EXEC_ERROR",
            EventKind::ExecFault => "EXEC_FAULT",
        }
    }
}

} // verus!
