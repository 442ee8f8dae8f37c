//! Reasons that a task reports for its current state.

use vstd::prelude::*;

verus! {

/// Why a task is in its current state or why it failed.
#[derive(Clone, Copy, PartialEq, Eq, Structural, Debug)]
pub enum Reason {
    /// Nothing to report.
    Default,
    /// The network went offline.
    NetworkOffline,
    /// The current network does not meet the task's requirements.
    UnsupportedNetworkType,
    /// The server answered with an error or an unexpected status.
    ProtocolError,
    /// A request could not be sent.
    RequestError,
    /// A redirection failed.
    RedirectError,
    /// Name resolution failed.
    Dns,
    /// The TLS handshake failed.
    Ssl,
    /// The TCP connection failed.
    Tcp,
    /// The transfer was slower than the configured minimum for too long.
    LowSpeed,
    /// The task ran out of its time budget.
    ContinuousTaskTimeout,
    /// The server does not honour the requested range.
    UnsupportedRangeRequest,
    /// The size of the file could not be determined.
    GetFileSizeFailed,
    /// The device has no space left.
    InsufficientSpace,
    /// A request could not be built.
    BuildRequestFailed,
    /// A local file operation failed.
    IoError,
    /// Any other failure.
    OthersError,
}

} // verus!
