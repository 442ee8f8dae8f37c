//! The decisions of a download: how it starts, how it judges the server's
//! answer and the client's errors, what it records of the file's size, and
//! what its retry loop does with each outcome.

use vstd::prelude::*;

use crate::config::FileSpec;
use crate::info::{state_code, Progress, State};
use crate::reason::Reason;
use crate::task::request_task::{
    ClientErrorKind, ErrorVerdict, TaskError, TaskPhase, no_space_message,
};
use crate::text::{contains_seq, contains_str, i64_of, parse_i64};

verus! {

/// How many times a download retries after the server timed out (408).
pub const TIMEOUT_RETRY_TIMES: u32 = 2;

/// Whether a status code reports a redirect (3xx).
pub open spec fn is_redirection(status: u16) -> bool {
    300 <= status <= 399
}

/// Whether a status code reports an error of the client (4xx).
pub open spec fn is_client_error(status: u16) -> bool {
    400 <= status <= 499
}

/// Whether a status code reports an error of the server (5xx).
pub open spec fn is_server_error(status: u16) -> bool {
    500 <= status <= 599
}

/// How a download judges the status of the server's answer, given how
/// often the server timed out before and whether a range was asked for.
/// Gives the new count of time-outs, and, when the download goes on,
/// whether the answer is a plain 200, which sends the whole file.
pub open spec fn status_verdict_of(status: u16, timeout_tries: u32, ranged: bool) -> (
    u32,
    Result<bool, TaskError>,
) {
    if is_server_error(status) || (status != 408 && is_client_error(status)) || is_redirection(
        status,
    ) {
        (timeout_tries, Err(TaskError::Failed(Reason::ProtocolError)))
    } else if status == 408 {
        if timeout_tries < TIMEOUT_RETRY_TIMES {
            ((timeout_tries + 1) as u32, Err(TaskError::Waiting(TaskPhase::NeedRetry)))
        } else {
            (timeout_tries, Err(TaskError::Failed(Reason::ProtocolError)))
        }
    } else if status == 200 && ranged {
        (0, Err(TaskError::Failed(Reason::UnsupportedRangeRequest)))
    } else {
        (0, Ok(status == 200))
    }
}

/// How a download answers each status. Every redirect (3xx), client error
/// (4xx) other than a time-out (408) and server error (5xx) fails the
/// download with a protocol error, keeping the count of time-outs. A
/// time-out is retried while fewer than two came before, and then fails
/// too. Any other status goes on with the count cleared, telling whether
/// the answer is a plain 200, which sends the whole file; only a plain 200
/// to a request for a range fails, as a range the server does not support.
pub proof fn lemma_download_status(status: u16, timeout_tries: u32, ranged: bool)
    ensures
        300 <= status <= 599 && status != 408 ==> status_verdict_of(status, timeout_tries, ranged)
            == (timeout_tries, Err::<bool, TaskError>(TaskError::Failed(Reason::ProtocolError))),
        status == 408 && timeout_tries < 2 ==> status_verdict_of(status, timeout_tries, ranged) == (
            (timeout_tries + 1) as u32,
            Err::<bool, TaskError>(TaskError::Waiting(TaskPhase::NeedRetry)),
        ),
        status == 408 && timeout_tries >= 2 ==> status_verdict_of(status, timeout_tries, ranged)
            == (timeout_tries, Err::<bool, TaskError>(TaskError::Failed(Reason::ProtocolError))),
        (status < 300 || status > 599) && !(status == 200 && ranged) ==> status_verdict_of(
            status,
            timeout_tries,
            ranged,
        ) == (0u32, Ok::<bool, TaskError>(status == 200)),
        status == 200 && ranged ==> status_verdict_of(status, timeout_tries, ranged) == (
            0u32,
            Err::<bool, TaskError>(TaskError::Failed(Reason::UnsupportedRangeRequest)),
        ),
{
}

/// Judges the status of the server's answer to a download.
pub fn status_verdict(status: u16, timeout_tries: u32, ranged: bool) -> (r: (
    u32,
    Result<bool, TaskError>,
))
    ensures
        r == status_verdict_of(status, timeout_tries, ranged),
{
    let server_error = 500 <= status && status <= 599;
    let client_error = 400 <= status && status <= 499;
    let redirection = 300 <= status && status <= 399;
    if server_error || (status != 408 && client_error) || redirection {
        return (timeout_tries, Err(TaskError::Failed(Reason::ProtocolError)));
    }
    if status == 408 {
        if timeout_tries < TIMEOUT_RETRY_TIMES {
            return (timeout_tries + 1, Err(TaskError::Waiting(TaskPhase::NeedRetry)));
        } else {
            return (timeout_tries, Err(TaskError::Failed(Reason::ProtocolError)));
        }
    }
    if status == 200 && ranged {
        return (0, Err(TaskError::Failed(Reason::UnsupportedRangeRequest)));
    }
    (0, Ok(status == 200))
}

/// How a download judges an error that kept its request from an answer.
pub open spec fn request_verdict_of(
    kind: ClientErrorKind,
    dns: bool,
    tls: bool,
    message: Seq<char>,
) -> ErrorVerdict {
    match kind {
        ClientErrorKind::Timeout => ErrorVerdict::Fail(
            TaskError::Failed(Reason::ContinuousTaskTimeout),
        ),
        ClientErrorKind::Request => ErrorVerdict::Fail(TaskError::Failed(Reason::RequestError)),
        ClientErrorKind::Redirect => ErrorVerdict::Fail(TaskError::Failed(Reason::RedirectError)),
        ClientErrorKind::Connect | ClientErrorKind::ConnectionUpgrade => ErrorVerdict::RetryOr(
            if dns {
                Reason::Dns
            } else if tls {
                Reason::Ssl
            } else {
                Reason::Tcp
            },
        ),
        ClientErrorKind::BodyTransfer => ErrorVerdict::RetryOr(Reason::OthersError),
        _ => if contains_seq(message, no_space_message()) {
            ErrorVerdict::Fail(TaskError::Failed(Reason::InsufficientSpace))
        } else {
            ErrorVerdict::Fail(TaskError::Failed(Reason::OthersError))
        },
    }
}

/// Judges an error that kept a download's request from an answer, from
/// its kind, whether it came from name resolution or from TLS, and its
/// message.
pub fn request_error_verdict(kind: ClientErrorKind, dns: bool, tls: bool, message: &str) -> (r:
    ErrorVerdict)
    ensures
        r == request_verdict_of(kind, dns, tls, message@),
{
    proof {
        reveal_strlit("No space left on device");
    }
    match kind {
        ClientErrorKind::Timeout => ErrorVerdict::Fail(
            TaskError::Failed(Reason::ContinuousTaskTimeout),
        ),
        ClientErrorKind::Request => ErrorVerdict::Fail(TaskError::Failed(Reason::RequestError)),
        ClientErrorKind::Redirect => ErrorVerdict::Fail(TaskError::Failed(Reason::RedirectError)),
        ClientErrorKind::Connect | ClientErrorKind::ConnectionUpgrade => {
            if dns {
                ErrorVerdict::RetryOr(Reason::Dns)
            } else if tls {
                ErrorVerdict::RetryOr(Reason::Ssl)
            } else {
                ErrorVerdict::RetryOr(Reason::Tcp)
            }
        },
        ClientErrorKind::BodyTransfer => ErrorVerdict::RetryOr(Reason::OthersError),
        _ => {
            if contains_str(message, "No space left on device") {
                ErrorVerdict::Fail(TaskError::Failed(Reason::InsufficientSpace))
            } else {
                ErrorVerdict::Fail(TaskError::Failed(Reason::OthersError))
            }
        },
    }
}

/// What the retry loop of a download does after one attempt.
#[derive(Clone, Copy, Debug)]
pub enum LoopStep {
    /// Try again.
    Again,
    /// Stop, recording this result of the task; nothing when the user
    /// stopped it.
    Finish(Option<Result<(), Reason>>),
}

/// What the retry loop does with the outcome of one attempt: a retry asked
/// for goes round again; a stop by the user records nothing; the network
/// going down records that; a failure records its reason; success records
/// success.
pub open spec fn step_of(outcome: Result<(), TaskError>) -> LoopStep {
    match outcome {
        Ok(()) => LoopStep::Finish(Some(Ok(()))),
        Err(TaskError::Waiting(TaskPhase::NeedRetry)) => LoopStep::Again,
        Err(TaskError::Waiting(TaskPhase::UserAbort)) => LoopStep::Finish(None),
        Err(TaskError::Waiting(TaskPhase::NetworkOffline)) => LoopStep::Finish(
            Some(Err(Reason::NetworkOffline)),
        ),
        Err(TaskError::Failed(reason)) => LoopStep::Finish(Some(Err(reason))),
    }
}

/// Decides what the retry loop does with the outcome of one attempt; see
/// `step_of`.
pub fn loop_step(outcome: Result<(), TaskError>) -> (r: LoopStep)
    ensures
        r == step_of(outcome),
{
    match outcome {
        Ok(()) => LoopStep::Finish(Some(Ok(()))),
        Err(TaskError::Waiting(phase)) => match phase {
            TaskPhase::NeedRetry => LoopStep::Again,
            TaskPhase::UserAbort => LoopStep::Finish(None),
            TaskPhase::NetworkOffline => LoopStep::Finish(Some(Err(Reason::NetworkOffline))),
        },
        Err(TaskError::Failed(reason)) => LoopStep::Finish(Some(Err(reason))),
    }
}

/// The time a task may still run after an attempt that took `elapsed`
/// seconds; the count wraps as the atomic subtraction does.
pub open spec fn rest_after(rest_time: u64, elapsed: u64) -> u64 {
    if elapsed <= rest_time {
        (rest_time - elapsed) as u64
    } else {
        (rest_time - elapsed + 0x1_0000_0000_0000_0000) as u64
    }
}

/// Computes the time a task may still run after an attempt; see
/// `rest_after`.
pub fn rest_time_after(rest_time: u64, elapsed: u64) -> (r: u64)
    ensures
        r == rest_after(rest_time, elapsed),
{
    rest_time.wrapping_sub(elapsed)
}

/// The state of the retry loop of a download: the retries counted so far
/// and the seconds the task may still run.
#[derive(Clone, Copy, Debug, PartialEq, Eq, Structural)]
pub struct RetryLoop {
    /// The retries counted so far.
    pub tries: u32,
    /// The seconds the task may still run.
    pub rest_time: u64,
}

impl RetryLoop {
    /// The loop before its first attempt: no retry is counted yet.
    pub fn start(rest_time: u64) -> (r: Self)
        ensures
            r.tries == 0,
            r.rest_time == rest_time,
    {
        RetryLoop { tries: 0, rest_time }
    }

    /// Takes the outcome of an attempt that took `elapsed` seconds: a retry
    /// asked for goes round again with that time taken off what the task
    /// may still run; anything else ends the loop with the task's result
    /// (see `step_of`). The retries counted stay as the attempts left them.
    pub fn after_attempt(&mut self, outcome: Result<(), TaskError>, elapsed: u64) -> (r: LoopStep)
        ensures
            r == step_of(outcome),
            final(self).tries == old(self).tries,
            final(self).rest_time == if r is Again {
                rest_after(old(self).rest_time, elapsed)
            } else {
                old(self).rest_time
            },
    {
        let step = loop_step(outcome);
        if let LoopStep::Again = step {
            self.rest_time = rest_time_after(self.rest_time, elapsed);
        }
        step
    }
}

/// Sets the progress of a download that starts, or resumes with
/// `downloaded` bytes already in its file: one file, at that count, running.
pub fn prepare_download(progress: &mut Progress, downloaded: usize)
    ensures
        final(progress).common_data.index == 0,
        final(progress).common_data.total_processed == downloaded,
        final(progress).common_data.state == state_code(State::Running),
        final(progress).processed@ == seq![downloaded],
        final(progress).sizes@ == old(progress).sizes@,
        final(progress).extras@ == old(progress).extras@,
{
    progress.common_data.index = 0;
    progress.common_data.total_processed = downloaded;
    progress.common_data.state = State::Running.repr();
    progress.processed = vec![downloaded];
}

/// The bytes processed of the first file, read as a signed size as a cast
/// does; 0 when there is no file.
pub open spec fn first_processed(processed: Seq<usize>) -> i64 {
    if processed.len() > 0 {
        processed[0] as i64
    } else {
        0
    }
}

/// The sizes a download records once its file is complete: the one file,
/// as large as what was written to it.
pub fn downloaded_sizes(processed: &Vec<usize>) -> (r: Vec<i64>)
    ensures
        r@ == seq![first_processed(processed@)],
{
    let first: i64 = if processed.len() > 0 {
        processed[0] as i64
    } else {
        0
    };
    vec![first]
}

/// What a download learns of its size from the server's `content-length`:
/// the length, when given as a number; nothing when it is no number; and,
/// when the server gave none, a failure for a task that needs the size.
pub open spec fn content_length_of(header: Option<Seq<char>>, precise: bool) -> Result<
    Option<i64>,
    TaskError,
> {
    match header {
        None => if precise {
            Err(TaskError::Failed(Reason::GetFileSizeFailed))
        } else {
            Ok(None)
        },
        Some(text) => Ok(i64_of(text)),
    }
}

/// Reads the size of a download from the server's `content-length`.
pub fn content_length(header: Option<&str>, precise: bool) -> (r: Result<Option<i64>, TaskError>)
    ensures
        r == content_length_of(
            match header {
                Some(t) => Some(t@),
                None => None,
            },
            precise,
        ),
{
    match header {
        None => {
            if precise {
                Err(TaskError::Failed(Reason::GetFileSizeFailed))
            } else {
                Ok(None)
            }
        },
        Some(text) => Ok(parse_i64(text)),
    }
}

/// The sizes a download records once the server told the length of what it
/// sends: what it sends and what was on disk before.
pub fn sizes_with_length(length: i64, processed: &Vec<usize>) -> (r: Vec<i64>)
    requires
        i64::MIN <= length + first_processed(processed@) <= i64::MAX,
    ensures
        r@ == seq![(length + first_processed(processed@)) as i64],
{
    let first: i64 = if processed.len() > 0 {
        processed[0] as i64
    } else {
        0
    };
    vec![length + first]
}

/// Whether a finished download checks its file on disk: not when the
/// caller handed the file in open.
pub fn checks_local_file(file_specs: &Vec<FileSpec>) -> (r: bool)
    ensures
        r == !(file_specs@.len() > 0 && file_specs@[0].is_user_file),
{
    if file_specs.len() > 0 && file_specs[0].is_user_file {
        false
    } else {
        true
    }
}

/// What a look at the downloaded file found.
#[derive(Clone, Copy, Debug, PartialEq, Eq, Structural)]
pub enum LocalFile {
    /// A regular file.
    RegularFile,
    /// Something that is not a regular file.
    NotAFile,
    /// Nothing.
    Missing,
    /// The look failed for another reason.
    Unknown,
}

/// Whether a downloaded file is in order: a file that is not a regular file
/// or is missing is an I/O failure; anything else passes.
pub fn local_file_verdict(found: LocalFile) -> (r: Result<(), TaskError>)
    ensures
        r == match found {
            LocalFile::NotAFile | LocalFile::Missing => Err(TaskError::Failed(Reason::IoError)),
            _ => Ok(()),
        },
{
    match found {
        LocalFile::NotAFile | LocalFile::Missing => Err(TaskError::Failed(Reason::IoError)),
        _ => Ok(()),
    }
}

/// Forgets what was downloaded when the file is cleared: nothing processed,
/// in total or of the first file.
pub fn reset_downloaded_progress(progress: &mut Progress)
    ensures
        final(progress).common_data.total_processed == 0,
        final(progress).processed@ == if old(progress).processed@.len() > 0 {
            old(progress).processed@.update(0, 0usize)
        } else {
            old(progress).processed@
        },
        final(progress).common_data.index == old(progress).common_data.index,
        final(progress).common_data.state == old(progress).common_data.state,
        final(progress).sizes@ == old(progress).sizes@,
        final(progress).extras@ == old(progress).extras@,
{
    progress.common_data.total_processed = 0;
    if progress.processed.len() > 0 {
        progress.processed.set(0, 0);
    }
}

} // verus!
