//! The decisions of an upload: how a file or a batch of files is picked up
//! again, how much of each file is sent, how the request is shaped, and how
//! the server's answer and the client's errors are judged.

use vstd::prelude::*;

use crate::info::{sum_usize, Progress};
use crate::reason::Reason;
use crate::task::request_task::{
    ClientErrorKind, ErrorVerdict, TaskError, TaskPhase, low_speed_message, no_space_message,
    uppercase_of, upper_case,
};
use crate::text::{contains_seq, contains_str, str_eq};

verus! {

/// The content type of a streamed upload whose task named none.
pub open spec fn octet_stream() -> Seq<char> {
    "application/octet-stream"@
}

/// The content type that a task names for a multipart upload.
pub open spec fn multipart_form_data() -> Seq<char> {
    "multipart/form-data"@
}

/// Whether files are sent one by one as multipart forms: as the task's
/// content type says, or, when it names none, for the method `POST` in any
/// case.
pub open spec fn multipart_of(content_type: Option<Seq<char>>, upper_method: Seq<char>) -> bool {
    match content_type {
        Some(t) => t == multipart_form_data(),
        None => upper_method == "POST"@,
    }
}

/// Decides whether files are sent one by one as multipart forms.
pub fn is_multipart(content_type: Option<&str>, method: &str) -> (r: bool)
    ensures
        r == multipart_of(
            match content_type {
                Some(t) => Some(t@),
                None => None,
            },
            uppercase_of(method@),
        ),
{
    proof {
        reveal_strlit("multipart/form-data");
    }
    match content_type {
        Some(t) => str_eq(t, "multipart/form-data"),
        None => {
            let upper = upper_case(method);
            str_eq(upper.as_str(), "POST")
        },
    }
}

/// The content type a streamed upload sends: the task's own, or the
/// generic binary type.
pub fn stream_content_type(content_type: Option<&str>) -> (r: Option<&'static str>)
    ensures
        content_type is Some ==> r is None,
        content_type is None ==> (r matches Some(t) && t@ == octet_stream()),
{
    match content_type {
        Some(_) => None,
        None => Some("application/octet-stream"),
    }
}

/// The bytes of a file that an upload still has to send: its size, read as
/// an unsigned number as a cast does, less what went out already.
pub fn upload_length(size: i64, processed: usize) -> (r: u64)
    requires
        processed as u64 <= size as u64,
    ensures
        r == (size as u64) - (processed as u64),
{
    (size as u64) - (processed as u64)
}

/// The sum of the first `k` byte counts grows with `k`.
proof fn lemma_sum_usize_prefix(s: Seq<usize>, k: int, m: int)
    requires
        0 <= k <= m <= s.len(),
    ensures
        sum_usize(s.take(k)) <= sum_usize(s.take(m)),
    decreases m - k,
{
    if k < m {
        lemma_sum_usize_prefix(s, k, m - 1);
        assert(s.take(m).drop_last() =~= s.take(m - 1));
    }
}

/// The bytes processed of the files before `index`.
pub fn processed_before(processed: &Vec<usize>, index: usize) -> (r: usize)
    requires
        index <= processed@.len(),
        sum_usize(processed@.take(index as int)) <= usize::MAX,
    ensures
        r == sum_usize(processed@.take(index as int)),
{
    let mut total: usize = 0;
    let mut i: usize = 0;
    while i < index
        invariant
            i <= index <= processed@.len(),
            sum_usize(processed@.take(index as int)) <= usize::MAX,
            total == sum_usize(processed@.take(i as int)),
        decreases index - i,
    {
        proof {
            assert(processed@.take(i + 1).drop_last() =~= processed@.take(i as int));
            lemma_sum_usize_prefix(processed@, i + 1, index as int);
        }
        total = total + processed[i];
        i = i + 1;
    }
    total
}

/// Makes file `index` the current one of an upload. Unless the upload
/// resumes, the file starts again from nothing; the bytes processed count
/// only the files before it.
pub fn reset_upload_progress(progress: &mut Progress, index: usize, resume: bool)
    requires
        index < old(progress).processed@.len(),
        sum_usize(old(progress).processed@.take(index as int)) <= usize::MAX,
    ensures
        final(progress).processed@ == if resume {
            old(progress).processed@
        } else {
            old(progress).processed@.update(index as int, 0usize)
        },
        final(progress).common_data.index == index,
        final(progress).common_data.total_processed == sum_usize(
            old(progress).processed@.take(index as int),
        ),
        final(progress).common_data.state == old(progress).common_data.state,
        final(progress).sizes@ == old(progress).sizes@,
        final(progress).extras@ == old(progress).extras@,
{
    if !resume {
        progress.processed.set(index, 0);
    }
    proof {
        assert(progress.processed@.take(index as int) =~= old(progress).processed@.take(
            index as int,
        ));
    }
    progress.common_data.index = index;
    let before = processed_before(&progress.processed, index);
    progress.common_data.total_processed = before;
}

/// The sum of file sizes, each read as an unsigned number as a cast does.
pub open spec fn sum_sizes_unsigned(s: Seq<i64>) -> int
    decreases s.len(),
{
    if s.len() == 0 {
        0
    } else {
        sum_sizes_unsigned(s.drop_last()) + (s.last() as usize) as int
    }
}

/// Whether `total` bytes lie within the first `k + 1` files.
pub open spec fn within_files(total: usize, sizes: Seq<i64>, k: int) -> bool {
    total <= sum_sizes_unsigned(sizes.take(k + 1))
}

/// The file a batch upload that already sent `total` bytes goes on with:
/// the first whose end lies at or past `total`; the first file when there
/// is none.
pub fn batch_current_index(total: usize, sizes: &Vec<i64>) -> (r: usize)
    requires
        forall|k: int| 0 <= k <= sizes@.len() ==> #[trigger] sum_sizes_unsigned(sizes@.take(k))
            <= usize::MAX,
    ensures
        (forall|k: int| 0 <= k < sizes@.len() ==> !#[trigger] within_files(total, sizes@, k))
            ==> r == 0,
        (exists|k: int| 0 <= k < sizes@.len() && #[trigger] within_files(total, sizes@, k)) ==> {
            &&& r < sizes@.len()
            &&& within_files(total, sizes@, r as int)
            &&& forall|k: int| 0 <= k < r ==> !#[trigger] within_files(total, sizes@, k)
        },
{
    let mut current: usize = 0;
    let mut i: usize = 0;
    while i < sizes.len()
        invariant
            i <= sizes@.len(),
            forall|k: int| 0 <= k <= sizes@.len() ==> #[trigger] sum_sizes_unsigned(sizes@.take(k))
                <= usize::MAX,
            current == sum_sizes_unsigned(sizes@.take(i as int)),
            forall|k: int| 0 <= k < i ==> !#[trigger] within_files(total, sizes@, k),
        decreases sizes@.len() - i,
    {
        proof {
            assert(sizes@.take(i + 1).drop_last() =~= sizes@.take(i as int));
            assert(sum_sizes_unsigned(sizes@.take(i + 1)) <= usize::MAX);
        }
        current = current + (sizes[i] as usize);
        if total <= current {
            assert(within_files(total, sizes@, i as int));
            return i;
        }
        i = i + 1;
    }
    0
}

/// Where an upload starts reading a file: after what it already sent; for
/// the file the task's range applies to, when the file on disk is larger
/// than the range, also past the range's start.
pub fn upload_seek_position(
    range_file: bool,
    file_len: u64,
    size: i64,
    begins: u64,
    processed: usize,
) -> (r: u64)
    requires
        range_file && file_len > size as u64 ==> begins + processed <= u64::MAX,
    ensures
        r == if range_file && file_len > size as u64 {
            (begins + processed) as u64
        } else {
            processed as u64
        },
{
    if range_file && file_len > size as u64 {
        begins + processed as u64
    } else {
        processed as u64
    }
}

/// How many bytes a read of an upload may still take from file `index`:
/// its size, read as an unsigned number as a cast does, less what was sent
/// already, counted in the task or, when the request is sent again, in the
/// reader.
pub fn read_budget(size: i64, processed: usize, reused: Option<usize>) -> (r: usize)
    requires
        match reused {
            Some(u) => u <= size as usize,
            None => processed <= size as usize,
        },
    ensures
        r == (size as usize) - match reused {
            Some(u) => u,
            None => processed,
        },
{
    match reused {
        Some(u) => (size as usize) - u,
        None => (size as usize) - processed,
    }
}

/// Records `n` bytes read for the upload of file `index`. A first sending
/// counts them in the task's progress and makes the file current; a
/// sending again counts them in the reader only. Gives back the reader's
/// new count.
pub fn record_upload_read(progress: &mut Progress, index: usize, n: usize, reused: Option<usize>)
    -> (r: Option<usize>)
    requires
        index < old(progress).processed@.len(),
        reused is None ==> old(progress).processed@[index as int] + n <= usize::MAX,
        reused is None ==> old(progress).common_data.total_processed + n <= usize::MAX,
        reused matches Some(u) ==> u + n <= usize::MAX,
    ensures
        r == match reused {
            Some(u) => Some((u + n) as usize),
            None => None,
        },
        reused is None ==> {
            &&& final(progress).processed@ == old(progress).processed@.update(
                index as int,
                (old(progress).processed@[index as int] + n) as usize,
            )
            &&& final(progress).common_data.total_processed == old(
                progress,
            ).common_data.total_processed + n
            &&& final(progress).common_data.index == index
        },
        reused is Some ==> {
            &&& final(progress).processed@ == old(progress).processed@
            &&& final(progress).common_data.total_processed
                == old(progress).common_data.total_processed
            &&& final(progress).common_data.index == old(progress).common_data.index
        },
        final(progress).common_data.state == old(progress).common_data.state,
        final(progress).sizes@ == old(progress).sizes@,
        final(progress).extras@ == old(progress).extras@,
{
    match reused {
        None => {
            let updated = progress.processed[index] + n;
            progress.processed.set(index, updated);
            progress.common_data.total_processed = progress.common_data.total_processed + n;
            progress.common_data.index = index;
            None
        },
        Some(u) => Some(u + n),
    }
}

/// How an upload judges the status of the server's answer, given how often
/// the server timed out before: redirects and errors fail, except a time-out
/// (408), which is retried twice; anything else goes on and clears the
/// count of time-outs.
pub open spec fn upload_status_of(status: u16, timeout_tries: u32) -> (u32, Result<(), TaskError>) {
    if (500 <= status <= 599) || (status != 408 && 400 <= status <= 499) || (300 <= status
        <= 399) {
        (timeout_tries, Err(TaskError::Failed(Reason::ProtocolError)))
    } else if status == 408 {
        if timeout_tries < 2 {
            ((timeout_tries + 1) as u32, Err(TaskError::Waiting(TaskPhase::NeedRetry)))
        } else {
            (timeout_tries, Err(TaskError::Failed(Reason::ProtocolError)))
        }
    } else {
        (0, Ok(()))
    }
}

/// How an upload answers each status. Every redirect (3xx), client error
/// (4xx) other than a time-out (408) and server error (5xx) fails the
/// upload with a protocol error, keeping the count of time-outs. A time-out
/// is retried while fewer than two came before, and then fails too. Only a
/// status outside 300 through 599 lets the upload go on, with the count
/// cleared.
pub proof fn lemma_upload_status(status: u16, timeout_tries: u32)
    ensures
        300 <= status <= 599 && status != 408 ==> upload_status_of(status, timeout_tries) == (
            timeout_tries,
            Err::<(), TaskError>(TaskError::Failed(Reason::ProtocolError)),
        ),
        status == 408 && timeout_tries < 2 ==> upload_status_of(status, timeout_tries) == (
            (timeout_tries + 1) as u32,
            Err::<(), TaskError>(TaskError::Waiting(TaskPhase::NeedRetry)),
        ),
        status == 408 && timeout_tries >= 2 ==> upload_status_of(status, timeout_tries) == (
            timeout_tries,
            Err::<(), TaskError>(TaskError::Failed(Reason::ProtocolError)),
        ),
        upload_status_of(status, timeout_tries).1 is Ok <==> (status < 300 || status > 599),
        status < 300 || status > 599 ==> upload_status_of(status, timeout_tries) == (
            0u32,
            Ok::<(), TaskError>(()),
        ),
{
}

/// Judges the status of the server's answer to an upload.
pub fn upload_status_verdict(status: u16, timeout_tries: u32) -> (r: (u32, Result<(), TaskError>))
    ensures
        r == upload_status_of(status, timeout_tries),
{
    if (500 <= status && status <= 599) || (status != 408 && 400 <= status && status <= 499) || (
    300 <= status && status <= 399) {
        return (timeout_tries, Err(TaskError::Failed(Reason::ProtocolError)));
    }
    if status == 408 {
        if timeout_tries < 2 {
            (timeout_tries + 1, Err(TaskError::Waiting(TaskPhase::NeedRetry)))
        } else {
            (timeout_tries, Err(TaskError::Failed(Reason::ProtocolError)))
        }
    } else {
        (0, Ok(()))
    }
}

/// How an upload judges an error of its request.
pub open spec fn upload_error_of(
    kind: ClientErrorKind,
    dns: bool,
    tls: bool,
    message: Seq<char>,
) -> ErrorVerdict {
    match kind {
        ClientErrorKind::Timeout => ErrorVerdict::Fail(
            TaskError::Failed(Reason::ContinuousTaskTimeout),
        ),
        ClientErrorKind::Request => ErrorVerdict::Fail(TaskError::Failed(Reason::RequestError)),
        ClientErrorKind::Redirect => ErrorVerdict::Fail(TaskError::Failed(Reason::RedirectError)),
        ClientErrorKind::Connect | ClientErrorKind::ConnectionUpgrade => ErrorVerdict::RetryOr(
            if dns {
                Reason::Dns
            } else if tls {
                Reason::Ssl
            } else {
                Reason::Tcp
            },
        ),
        ClientErrorKind::BodyTransfer => if contains_seq(message, low_speed_message()) {
            ErrorVerdict::Fail(TaskError::Failed(Reason::LowSpeed))
        } else {
            ErrorVerdict::RetryOr(Reason::OthersError)
        },
        ClientErrorKind::UserAborted => ErrorVerdict::Fail(
            TaskError::Waiting(TaskPhase::UserAbort),
        ),
        _ => if contains_seq(message, no_space_message()) {
            ErrorVerdict::Fail(TaskError::Failed(Reason::InsufficientSpace))
        } else {
            ErrorVerdict::Fail(TaskError::Failed(Reason::OthersError))
        },
    }
}

/// Judges an error of an upload's request from its kind, whether it came
/// from name resolution or from TLS, and its message.
pub fn upload_error_verdict(kind: ClientErrorKind, dns: bool, tls: bool, message: &str) -> (r:
    ErrorVerdict)
    ensures
        r == upload_error_of(kind, dns, tls, message@),
{
    proof {
        reveal_strlit("Below low speed limit");
        reveal_strlit("No space left on device");
    }
    match kind {
        ClientErrorKind::Timeout => ErrorVerdict::Fail(
            TaskError::Failed(Reason::ContinuousTaskTimeout),
        ),
        ClientErrorKind::Request => ErrorVerdict::Fail(TaskError::Failed(Reason::RequestError)),
        ClientErrorKind::Redirect => ErrorVerdict::Fail(TaskError::Failed(Reason::RedirectError)),
        ClientErrorKind::Connect | ClientErrorKind::ConnectionUpgrade => {
            if dns {
                ErrorVerdict::RetryOr(Reason::Dns)
            } else if tls {
                ErrorVerdict::RetryOr(Reason::Ssl)
            } else {
                ErrorVerdict::RetryOr(Reason::Tcp)
            }
        },
        ClientErrorKind::BodyTransfer => {
            if contains_str(message, "Below low speed limit") {
                ErrorVerdict::Fail(TaskError::Failed(Reason::LowSpeed))
            } else {
                ErrorVerdict::RetryOr(Reason::OthersError)
            }
        },
        ClientErrorKind::UserAborted => ErrorVerdict::Fail(
            TaskError::Waiting(TaskPhase::UserAbort),
        ),
        _ => {
            if contains_str(message, "No space left on device") {
                ErrorVerdict::Fail(TaskError::Failed(Reason::InsufficientSpace))
            } else {
                ErrorVerdict::Fail(TaskError::Failed(Reason::OthersError))
            }
        },
    }
}

/// Where the reader of a file starts when a request is sent again: at the
/// start of the range for the file the task's range applies to, else at the
/// start of the file.
pub fn reuse_position(range_file: bool, begins: u64) -> (r: u64)
    ensures
        r == if range_file {
            begins
        } else {
            0
        },
{
    if range_file {
        begins
    } else {
        0
    }
}

} // verus!
