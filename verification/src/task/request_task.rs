//! The decisions a transfer task takes about itself: its sizes when it is
//! built, the request it sends, how long it may still run, and how it
//! judges the errors of the HTTP client.

use std::collections::HashMap;

use vstd::prelude::*;
use vstd::std_specs::hash::obeys_key_model;

use crate::config::{Action, FileSpec, Version};
use crate::notification_bar::notification_config::opt_view;
use crate::parcel::{map_of, pairs_map};
use crate::utils::pair_texts;
use crate::info::{i64_sums_fit, sum_i64};
use crate::reason::Reason;
use crate::text::{
    contains_seq, contains_str, dec_digits, i64_to_text, int_text, push_str, str_eq, to_owned_string,
    u64_to_text,
};

verus! {

/// How many times a task retries after a network error.
pub const RETRY_TIMES: u32 = 4;

/// Pause between two retries, in milliseconds.
pub const RETRY_INTERVAL: u64 = 400;

/// Time a task may run when it set no limit and shows no notification:
/// ten minutes, in seconds.
pub const SECONDS_IN_TEN_MINUTES: u64 = 600;

/// Time a task may run when it set no limit: a week, in seconds.
pub const DEFAULT_TOTAL_TIMEOUT: u64 = 604800;

/// Why a task is waiting rather than done.
#[derive(Clone, Copy, Debug, PartialEq, Eq, Structural)]
pub enum TaskPhase {
    /// The task is to be tried again.
    NeedRetry,
    /// The user stopped the task.
    UserAbort,
    /// The network is down.
    NetworkOffline,
}

/// How a step of a task went wrong.
#[derive(Clone, Copy, Debug, PartialEq, Eq, Structural)]
pub enum TaskError {
    /// The task failed for this reason.
    Failed(Reason),
    /// The task waits for this to change.
    Waiting(TaskPhase),
}

/// The kinds of error that the HTTP client reports.
#[derive(Clone, Copy, Debug, PartialEq, Eq, Structural)]
pub enum ClientErrorKind {
    /// The request could not be built.
    Build,
    /// No connection could be made.
    Connect,
    /// The request was refused.
    Request,
    /// A redirect went wrong.
    Redirect,
    /// The body broke off while it was transferred.
    BodyTransfer,
    /// The body could not be decoded.
    BodyDecode,
    /// The connection could not be upgraded.
    ConnectionUpgrade,
    /// The request took too long.
    Timeout,
    /// The user stopped the transfer.
    UserAborted,
    /// Anything else.
    Other,
}

/// The last byte that an upload range covers: the given end, or the last
/// byte of the file when the end is negative or past the file.
pub open spec fn range_end(ends: i64, size: i64) -> int {
    if ends < 0 || ends >= size {
        size - 1
    } else {
        ends as int
    }
}

/// The number of bytes of a file of `size` bytes that an upload of the
/// range from `begins` to `ends` sends; the whole file when the range is
/// empty. The start is read as a signed number, as a cast does.
pub open spec fn upload_size_of(begins: u64, ends: i64, size: i64) -> int {
    let e = range_end(ends, size);
    if (begins as i64) > e {
        size as int
    } else {
        e - (begins as i64) + 1
    }
}

/// Whether the size of an upload range can be computed in 64 bits.
pub open spec fn upload_size_defined(begins: u64, ends: i64, size: i64) -> bool {
    &&& (ends < 0 || ends >= size) ==> size > i64::MIN
    &&& i64::MIN <= upload_size_of(begins, ends, size) <= i64::MAX
}

/// The number of bytes that an upload of a range sends.
pub fn change_upload_size(begins: u64, ends: i64, size: i64) -> (r: i64)
    requires
        upload_size_defined(begins, ends, size),
    ensures
        r == upload_size_of(begins, ends, size),
{
    let mut ends = ends;
    if ends < 0 || ends >= size {
        ends = size - 1;
    }
    let start = begins as i64;
    if start > ends {
        return size;
    }
    ends - start + 1
}

/// The total size of the files of an upload.
pub fn upload_total_size(sizes: &Vec<i64>) -> (r: i64)
    requires
        i64_sums_fit(sizes@),
    ensures
        r == sum_i64(sizes@),
{
    let mut total: i64 = 0;
    let mut i: usize = 0;
    while i < sizes.len()
        invariant
            i <= sizes@.len(),
            i64_sums_fit(sizes@),
            total == sum_i64(sizes@.take(i as int)),
        decreases sizes@.len() - i,
    {
        assert(sizes@.take(i + 1).drop_last() =~= sizes@.take(i as int));
        assert(i64::MIN <= sum_i64(sizes@.take(i + 1)) <= i64::MAX);
        total = total + sizes[i];
        i = i + 1;
    }
    assert(sizes@.take(sizes@.len() as int) =~= sizes@);
    total
}

/// The total size a new task starts with: the sum of the files of an
/// upload, or unknown (-1) for a download.
pub fn new_total_size(action: Action, sizes: &Vec<i64>) -> (r: i64)
    requires
        action != Action::Any,
        action == Action::Upload ==> i64_sums_fit(sizes@),
    ensures
        r == if action == Action::Upload {
            sum_i64(sizes@)
        } else {
            -1
        },
{
    match action {
        Action::Upload => upload_total_size(sizes),
        _ => -1,
    }
}

/// The total size a task restored from its record starts with: the sum of
/// the files of an upload, or the recorded size of the first file of a
/// download, unknown (-1) when none is recorded.
pub fn restored_total_size(action: Action, sizes: &Vec<i64>, recorded: &Vec<i64>) -> (r: i64)
    requires
        action != Action::Any,
        action == Action::Upload ==> i64_sums_fit(sizes@),
    ensures
        r == if action == Action::Upload {
            sum_i64(sizes@)
        } else if recorded@.len() > 0 {
            recorded@[0] as int
        } else {
            -1
        },
{
    match action {
        Action::Upload => upload_total_size(sizes),
        _ => {
            if recorded.len() > 0 {
                recorded[0]
            } else {
                -1
            }
        },
    }
}

/// The sizes a new task records for its files: for an upload, the file at
/// `index` counts only the bytes of its range.
pub fn initial_sizes(action: Action, index: u32, begins: u64, ends: i64, sizes: Vec<i64>) -> (r:
    Vec<i64>)
    requires
        action == Action::Upload && (index as int) < sizes@.len() ==> upload_size_defined(
            begins,
            ends,
            sizes@[index as int],
        ),
    ensures
        r@ == if action == Action::Upload && (index as int) < sizes@.len() {
            sizes@.update(index as int, upload_size_of(begins, ends, sizes@[index as int]) as i64)
        } else {
            sizes@
        },
{
    let mut sizes = sizes;
    if action == Action::Upload && (index as usize) < sizes.len() {
        let i = index as usize;
        let changed = change_upload_size(begins, ends, sizes[i]);
        sizes.set(i, changed);
    }
    sizes
}

/// Whether a task asks for a part of its file only.
pub fn require_range(begins: u64, ends: i64) -> (r: bool)
    ensures
        r == (begins > 0 || ends >= 0),
{
    begins > 0 || ends >= 0
}

/// The value of a `Range` header: from `begins` to `ends`, or to the end
/// of the file when `ends` is negative.
pub open spec fn range_header_text(begins: u64, ends: i64) -> Seq<char> {
    if ends < 0 {
        "bytes="@ + dec_digits(begins as nat) + "-"@
    } else {
        "bytes="@ + dec_digits(begins as nat) + "-"@ + int_text(ends as int)
    }
}

/// Writes the value of a `Range` header.
pub fn range_header(begins: u64, ends: i64) -> (r: String)
    ensures
        r@ == range_header_text(begins, ends),
{
    let mut r = String::new();
    push_str(&mut r, "bytes=");
    let b = u64_to_text(begins);
    push_str(&mut r, b.as_str());
    push_str(&mut r, "-");
    if ends >= 0 {
        let e = i64_to_text(ends);
        push_str(&mut r, e.as_str());
    }
    proof {
        reveal_strlit("bytes=");
        reveal_strlit("-");
    }
    r
}

/// The value an `If-Range` header takes: the entity tag the server gave,
/// else its last-modified time; none when it gave neither, and then the
/// server cannot resume.
pub fn if_range_value(etag: Option<String>, last_modified: Option<String>) -> (r: Option<String>)
    ensures
        r == if etag is Some {
            etag
        } else {
            last_modified
        },
{
    match etag {
        Some(e) => Some(e),
        None => last_modified,
    }
}

/// What a download asks of the server about the part of the file.
#[derive(Clone, Copy, Debug, PartialEq, Eq, Structural)]
pub enum RangePlan {
    /// Ask for the whole file.
    Whole,
    /// Ask for the bytes from `begins` to `ends` (to the end when negative).
    Range { begins: u64, ends: i64 },
    /// Throw away what was downloaded and ask for the whole file.
    Restart,
}

/// What a download asks for: what is on disk already is resumed where the
/// server can resume it; a range asked for is kept. Without resumption a
/// partial file is restarted unless a range was asked for, which fails.
pub open spec fn range_plan_of(
    has_downloaded: u64,
    begins: u64,
    ends: i64,
    can_resume: bool,
) -> Result<RangePlan, Reason> {
    let resume = has_downloaded > 0;
    let ranged = begins > 0 || ends >= 0;
    if resume {
        if can_resume {
            Ok(RangePlan::Range { begins: (begins + has_downloaded) as u64, ends })
        } else if ranged {
            Err(Reason::UnsupportedRangeRequest)
        } else {
            Ok(RangePlan::Restart)
        }
    } else if ranged {
        Ok(RangePlan::Range { begins, ends })
    } else {
        Ok(RangePlan::Whole)
    }
}

/// What a download asks for, by case. Bytes already on disk are always
/// kept where the server can resume: the request starts after them, at
/// the range's start moved on by what was downloaded, to the range's end,
/// whether or not the task asked for a range. Where the server cannot
/// resume, a task that asked for a range (a start past zero or an end not
/// negative) fails, and any other throws its bytes away and starts over;
/// the download is restarted in no other case. With nothing on disk the
/// range asked for is sent as it is, or the whole file when none was.
pub proof fn lemma_range_plan(has_downloaded: u64, begins: u64, ends: i64, can_resume: bool)
    ensures
        has_downloaded > 0 && can_resume && begins + has_downloaded <= u64::MAX ==> range_plan_of(
            has_downloaded,
            begins,
            ends,
            can_resume,
        ) == Ok::<RangePlan, Reason>(
            RangePlan::Range { begins: (begins + has_downloaded) as u64, ends },
        ),
        has_downloaded > 0 && !can_resume && (begins > 0 || ends >= 0) ==> range_plan_of(
            has_downloaded,
            begins,
            ends,
            can_resume,
        ) == Err::<RangePlan, Reason>(Reason::UnsupportedRangeRequest),
        has_downloaded > 0 && !can_resume && begins == 0 && ends < 0 ==> range_plan_of(
            has_downloaded,
            begins,
            ends,
            can_resume,
        ) == Ok::<RangePlan, Reason>(RangePlan::Restart),
        range_plan_of(has_downloaded, begins, ends, can_resume) == Ok::<RangePlan, Reason>(
            RangePlan::Restart,
        ) ==> has_downloaded > 0 && !can_resume,
        has_downloaded == 0 && (begins > 0 || ends >= 0) ==> range_plan_of(
            has_downloaded,
            begins,
            ends,
            can_resume,
        ) == Ok::<RangePlan, Reason>(RangePlan::Range { begins, ends }),
        has_downloaded == 0 && begins == 0 && ends < 0 ==> range_plan_of(
            has_downloaded,
            begins,
            ends,
            can_resume,
        ) == Ok::<RangePlan, Reason>(RangePlan::Whole),
{
}

/// Decides what part of the file a download asks for.
pub fn download_range_plan(has_downloaded: u64, begins: u64, ends: i64, can_resume: bool) -> (r:
    Result<RangePlan, Reason>)
    requires
        has_downloaded > 0 && can_resume ==> begins + has_downloaded <= u64::MAX,
    ensures
        r == range_plan_of(has_downloaded, begins, ends, can_resume),
{
    let resume = has_downloaded > 0;
    let ranged = require_range(begins, ends);
    if resume {
        if can_resume {
            Ok(RangePlan::Range { begins: begins + has_downloaded, ends })
        } else if ranged {
            Err(Reason::UnsupportedRangeRequest)
        } else {
            Ok(RangePlan::Restart)
        }
    } else if ranged {
        Ok(RangePlan::Range { begins, ends })
    } else {
        Ok(RangePlan::Whole)
    }
}

/// The name of what `str::to_uppercase` makes of a text.
pub uninterp spec fn uppercase_of(s: Seq<char>) -> Seq<char>;

/// Upper-cases a text with `str::to_uppercase`. What each character
/// becomes follows Unicode's tables and is left unstated: the result is
/// only named.
#[verifier::external_body]
pub(crate) fn upper_case(s: &str) -> (r: String)
    ensures
        r@ == uppercase_of(s@),
{
    s.to_uppercase()
}

/// The name of what `str::to_lowercase` makes of a text.
pub uninterp spec fn lowercase_of(s: Seq<char>) -> Seq<char>;

/// Lower-cases a text with `str::to_lowercase`. What each character
/// becomes follows Unicode's tables and is left unstated: the result is
/// only named.
#[verifier::external_body]
pub(crate) fn lower_case(s: &str) -> (r: String)
    ensures
        r@ == lowercase_of(s@),
{
    s.to_lowercase()
}

/// The texts of response headers: each name, and its value where it could
/// be read as text.
pub open spec fn header_texts(hs: Seq<(String, Option<String>)>) -> Seq<(Seq<char>, Option<Seq<char>>)> {
    hs.map_values(|h: (String, Option<String>)| (h.0@, opt_view(h.1)))
}

/// The pairs a task keeps of its response headers, in order: each header
/// whose value could be read, under its name in lower case.
pub open spec fn kept_headers(hs: Seq<(Seq<char>, Option<Seq<char>>)>) -> Seq<(Seq<char>, Seq<char>)>
    decreases hs.len(),
{
    if hs.len() == 0 {
        Seq::empty()
    } else {
        let kept = kept_headers(hs.drop_last());
        match hs.last().1 {
            Some(v) => kept.push((lowercase_of(hs.last().0), v)),
            None => kept,
        }
    }
}

/// The extras a task records of a response: the map of its headers as
/// `kept_headers` keeps them, a later header winning over an earlier one
/// with the same name (stated where strings obey vstd's model of hashed
/// keys).
pub fn response_extras(headers: &Vec<(String, Option<String>)>) -> (r: HashMap<String, String>)
    ensures
        obeys_key_model::<String>() ==> exists|p: Seq<(String, String)>|
            pair_texts(p) == kept_headers(header_texts(headers@)) && #[trigger] pairs_map(p) == r@,
{
    let mut pairs: Vec<(String, String)> = Vec::new();
    let mut i: usize = 0;
    while i < headers.len()
        invariant
            i <= headers@.len(),
            pair_texts(pairs@) == kept_headers(header_texts(headers@.take(i as int))),
        decreases headers@.len() - i,
    {
        proof {
            assert(headers@.take(i + 1).drop_last() =~= headers@.take(i as int));
            assert(header_texts(headers@.take(i + 1)).drop_last() =~= header_texts(
                headers@.take(i as int),
            ));
            assert(header_texts(headers@.take(i + 1)).last() == (
                headers@[i as int].0@,
                opt_view(headers@[i as int].1),
            ));
        }
        match &headers[i].1 {
            Some(v) => {
                let name = lower_case(headers[i].0.as_str());
                let ghost before = pairs@;
                pairs.push((name, v.clone()));
                proof {
                    assert(pair_texts(pairs@) =~= pair_texts(before).push((name@, v@)));
                }
            },
            None => {},
        }
        i = i + 1;
    }
    proof {
        assert(headers@.take(headers@.len() as int) =~= headers@);
    }
    map_of(&pairs)
}

/// The method of a request, from its method written in upper case: `PUT`,
/// `POST` and `GET` stay; anything else becomes the default of the action,
/// `PUT` (API10) or `POST` (API9) for an upload and `GET` for a download.
pub open spec fn method_of(upper: Seq<char>, action: Action, version: Version) -> Seq<char> {
    if upper == "PUT"@ {
        "PUT"@
    } else if upper == "POST"@ {
        "POST"@
    } else if upper == "GET"@ {
        "GET"@
    } else {
        match action {
            Action::Upload => if version == Version::API10 {
                "PUT"@
            } else {
                "POST"@
            },
            Action::Download => "GET"@,
            Action::Any => ""@,
        }
    }
}

/// Picks the method of a request from its method already in upper case.
pub fn method_for(upper: &str, action: Action, version: Version) -> (r: &'static str)
    ensures
        r@ == method_of(upper@, action, version),
{
    if str_eq(upper, "PUT") {
        "PUT"
    } else if str_eq(upper, "POST") {
        "POST"
    } else if str_eq(upper, "GET") {
        "GET"
    } else {
        match action {
            Action::Upload => {
                if version == Version::API10 {
                    "PUT"
                } else {
                    "POST"
                }
            },
            Action::Download => "GET",
            Action::Any => "",
        }
    }
}

/// The method a task's request uses, its configured method read without
/// regard to case.
pub fn request_method(method: &str, action: Action, version: Version) -> (r: &'static str)
    ensures
        r@ == method_of(uppercase_of(method@), action, version),
{
    let upper = upper_case(method);
    method_for(upper.as_str(), action, version)
}

/// How long a task may still run, in seconds: its own limit, or, when it
/// set none, ten minutes without a notification and a week with one; less
/// the time it already ran, and never below zero.
pub open spec fn rest_time_of(total_timeout: u64, notification_available: bool, task_time: u64) -> u64 {
    let total = if total_timeout == 0 {
        if !notification_available {
            SECONDS_IN_TEN_MINUTES
        } else {
            DEFAULT_TOTAL_TIMEOUT
        }
    } else {
        total_timeout
    };
    if total > task_time {
        (total - task_time) as u64
    } else {
        0
    }
}

/// Computes how long a task may still run.
pub fn get_rest_time(total_timeout: u64, notification_available: bool, task_time: u64) -> (r: u64)
    ensures
        r == rest_time_of(total_timeout, notification_available, task_time),
{
    let mut total = total_timeout;
    if total == 0 {
        if !notification_available {
            total = SECONDS_IN_TEN_MINUTES;
        } else {
            total = DEFAULT_TOTAL_TIMEOUT;
        }
    }
    if total > task_time {
        total - task_time
    } else {
        0
    }
}

/// One step of retrying after a network error: while retries are left,
/// count one and wait, for the network when it is down, else to try again;
/// with none left, go on. Gives back the new count of tries.
pub fn network_retry(tries: u32, online: bool) -> (r: (u32, Result<(), TaskError>))
    ensures
        r == if tries < RETRY_TIMES {
            (
                (tries + 1) as u32,
                Err(
                    if online {
                        TaskError::Waiting(TaskPhase::NeedRetry)
                    } else {
                        TaskError::Waiting(TaskPhase::NetworkOffline)
                    },
                ),
            )
        } else {
            (tries, Ok(()))
        },
{
    if tries < RETRY_TIMES {
        if !online {
            (tries + 1, Err(TaskError::Waiting(TaskPhase::NetworkOffline)))
        } else {
            (tries + 1, Err(TaskError::Waiting(TaskPhase::NeedRetry)))
        }
    } else {
        (tries, Ok(()))
    }
}

/// How a task judges an error of its client.
#[derive(Clone, Copy, Debug, PartialEq, Eq, Structural)]
pub enum ErrorVerdict {
    /// The task ends with this error.
    Fail(TaskError),
    /// The task first retries; when no retry is left it fails for the reason.
    RetryOr(Reason),
}

/// The error a retried step ends with: the retry's own wait, or, when no
/// retry was left, the failure.
pub fn after_retry(retry: Result<(), TaskError>, reason: Reason) -> (r: TaskError)
    ensures
        r == match retry {
            Err(e) => e,
            Ok(()) => TaskError::Failed(reason),
        },
{
    match retry {
        Err(e) => e,
        Ok(()) => TaskError::Failed(reason),
    }
}

/// The message of a client error that means the transfer fell below its
/// lowest speed.
pub open spec fn low_speed_message() -> Seq<char> {
    "Below low speed limit"@
}

/// The message of a client error that means the disk is full.
pub open spec fn no_space_message() -> Seq<char> {
    "No space left on device"@
}

/// How a download judges an error that broke off its transfer.
pub open spec fn transfer_verdict_of(kind: ClientErrorKind, message: Seq<char>) -> ErrorVerdict {
    match kind {
        ClientErrorKind::Timeout => ErrorVerdict::Fail(
            TaskError::Failed(Reason::ContinuousTaskTimeout),
        ),
        ClientErrorKind::UserAborted => ErrorVerdict::Fail(
            TaskError::Waiting(TaskPhase::UserAbort),
        ),
        ClientErrorKind::BodyTransfer | ClientErrorKind::BodyDecode => if contains_seq(
            message,
            low_speed_message(),
        ) {
            ErrorVerdict::Fail(TaskError::Failed(Reason::LowSpeed))
        } else {
            ErrorVerdict::RetryOr(Reason::OthersError)
        },
        _ => if contains_seq(message, no_space_message()) {
            ErrorVerdict::Fail(TaskError::Failed(Reason::InsufficientSpace))
        } else {
            ErrorVerdict::Fail(TaskError::Failed(Reason::OthersError))
        },
    }
}

/// Judges an error that broke off a download, from its kind and message.
pub fn download_error_verdict(kind: ClientErrorKind, message: &str) -> (r: ErrorVerdict)
    ensures
        r == transfer_verdict_of(kind, message@),
{
    proof {
        reveal_strlit("Below low speed limit");
        reveal_strlit("No space left on device");
    }
    match kind {
        ClientErrorKind::Timeout => ErrorVerdict::Fail(
            TaskError::Failed(Reason::ContinuousTaskTimeout),
        ),
        ClientErrorKind::UserAborted => ErrorVerdict::Fail(
            TaskError::Waiting(TaskPhase::UserAbort),
        ),
        ClientErrorKind::BodyTransfer | ClientErrorKind::BodyDecode => {
            if contains_str(message, "Below low speed limit") {
                ErrorVerdict::Fail(TaskError::Failed(Reason::LowSpeed))
            } else {
                ErrorVerdict::RetryOr(Reason::OthersError)
            }
        },
        _ => {
            if contains_str(message, "No space left on device") {
                ErrorVerdict::Fail(TaskError::Failed(Reason::InsufficientSpace))
            } else {
                ErrorVerdict::Fail(TaskError::Failed(Reason::OthersError))
            }
        },
    }
}

/// Whether every file that the task names by path may be used: files the
/// caller handed in open are not checked; `path_valid[i]` says whether the
/// path of the `i`-th file passed the path checks.
pub fn check_file_specs(file_specs: &Vec<FileSpec>, path_valid: &Vec<bool>) -> (r: bool)
    requires
        path_valid@.len() == file_specs@.len(),
    ensures
        r == forall|i: int|
            0 <= i < file_specs@.len() ==> (#[trigger] file_specs@[i]).is_user_file || path_valid@[i],
{
    let mut i: usize = 0;
    while i < file_specs.len()
        invariant
            i <= file_specs@.len(),
            path_valid@.len() == file_specs@.len(),
            forall|j: int| 0 <= j < i ==> (#[trigger] file_specs@[j]).is_user_file || path_valid@[j],
        decreases file_specs@.len() - i,
    {
        if !file_specs[i].is_user_file && !path_valid[i] {
            return false;
        }
        i = i + 1;
    }
    true
}

/// The reason recorded for each file of a task: the recorded code of the
/// file where there is one, else the default.
pub fn each_file_reason(file_count: usize, codes: &Vec<Reason>) -> (r: Vec<Reason>)
    ensures
        r@.len() == file_count,
        forall|i: int|
            0 <= i < file_count ==> #[trigger] r@[i] == if i < codes@.len() {
                codes@[i]
            } else {
                Reason::Default
            },
{
    let mut r: Vec<Reason> = Vec::new();
    let mut i: usize = 0;
    while i < file_count
        invariant
            i <= file_count,
            r@.len() == i,
            forall|j: int|
                0 <= j < i ==> #[trigger] r@[j] == if j < codes@.len() {
                    codes@[j]
                } else {
                    Reason::Default
                },
        decreases file_count - i,
    {
        if i < codes.len() {
            r.push(codes[i]);
        } else {
            r.push(Reason::Default);
        }
        i = i + 1;
    }
    r
}

/// The MIME type a task reports: for API10, the content type it set for a
/// download, the multipart type for an upload; for API9, the type the
/// server sent.
pub open spec fn info_mime_type_of(
    version: Version,
    action: Action,
    content_type: Option<Seq<char>>,
    received: Seq<char>,
) -> Seq<char> {
    match version {
        Version::API10 => match action {
            Action::Download => match content_type {
                Some(t) => t,
                None => ""@,
            },
            Action::Upload => "multipart/form-data"@,
            Action::Any => ""@,
        },
        Version::API9 => received,
    }
}

/// Picks the MIME type a task reports.
pub fn info_mime_type(version: Version, action: Action, content_type: Option<&str>, received: &str)
    -> (r: String)
    ensures
        r@ == info_mime_type_of(
            version,
            action,
            match content_type {
                Some(t) => Some(t@),
                None => None,
            },
            received@,
        ),
{
    proof {
        reveal_strlit("");
        reveal_strlit("multipart/form-data");
    }
    match version {
        Version::API10 => match action {
            Action::Download => match content_type {
                Some(t) => to_owned_string(t),
                None => String::new(),
            },
            Action::Upload => to_owned_string("multipart/form-data"),
            Action::Any => String::new(),
        },
        Version::API9 => to_owned_string(received),
    }
}

/// The status of one file of a task.
pub struct EachFileStatus {
    /// The file's path.
    pub path: String,
    /// Why the file is in its state.
    pub reason: Reason,
}

/// The status of each file of a task that stopped at file `index` for
/// `reason`: the files before it are fine, it and those after carry the
/// reason.
pub fn create_each_file_status(file_specs: &Vec<FileSpec>, index: usize, reason: Reason) -> (r: Vec<
    EachFileStatus,
>)
    ensures
        r@.len() == file_specs@.len(),
        forall|i: int|
            0 <= i < r@.len() ==> (#[trigger] r@[i]).path@ == file_specs@[i].path@ && r@[i].reason
                == if i >= index {
                reason
            } else {
                Reason::Default
            },
{
    let mut r: Vec<EachFileStatus> = Vec::new();
    let mut i: usize = 0;
    while i < file_specs.len()
        invariant
            i <= file_specs@.len(),
            r@.len() == i,
            forall|j: int|
                0 <= j < i ==> (#[trigger] r@[j]).path@ == file_specs@[j].path@ && r@[j].reason
                    == if j >= index {
                    reason
                } else {
                    Reason::Default
                },
        decreases file_specs@.len() - i,
    {
        let code = if i >= index {
            reason
        } else {
            Reason::Default
        };
        let path = to_owned_string(file_specs[i].path.as_str());
        r.push(EachFileStatus { path, reason: code });
        i = i + 1;
    }
    r
}

} // verus!
