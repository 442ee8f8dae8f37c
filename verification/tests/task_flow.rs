use request_services::task::download::RetryLoop;
use request_services::config::{Action, Version};
use request_services::info::{Progress, State};
use request_services::reason::Reason;
use request_services::task::download::{
    checks_local_file, content_length, downloaded_sizes, local_file_verdict, loop_step,
    prepare_download, request_error_verdict, reset_downloaded_progress, rest_time_after,
    sizes_with_length, status_verdict, LocalFile, LoopStep,
};
use request_services::task::operator::{
    effective_speed_limit, progress_tick, record_write, ProgressTick,
};
use request_services::task::request_task::{
    after_retry, change_upload_size, check_file_specs, create_each_file_status,
    download_error_verdict, download_range_plan, each_file_reason, get_rest_time, if_range_value,
    info_mime_type, initial_sizes, method_for, network_retry, new_total_size, range_header,
    request_method, require_range, response_extras, restored_total_size, upload_total_size,
    ClientErrorKind,
    ErrorVerdict, RangePlan, TaskError, TaskPhase,
};
use request_services::task::speed_limiter::SpeedLimiter;
use request_services::task::upload::{
    batch_current_index, is_multipart, processed_before, read_budget, record_upload_read,
    reset_upload_progress, reuse_position, stream_content_type, upload_error_verdict,
    upload_length, upload_seek_position, upload_status_verdict,
};
use request_services::config::FileSpec;

fn tick(current: u64, processed: usize, rate: u64, max_speed: i64) -> ProgressTick {
    ProgressTick {
        aborted: false,
        current,
        last_notify: 0,
        background_notify: false,
        background_notify_time: 0,
        total_processed: processed,
        rate_limiting: rate,
        max_speed,
    }
}

#[test]
fn speed_limiter_opens_window_then_pauses() {
    let mut l = SpeedLimiter::new();
    l.update_speed_limit(1000);
    assert_eq!(l.speed_limit, 1000);
    // first check opens a window
    assert_eq!(l.check_limit(5000, 100), None);
    assert_eq!(l.last_time, 5000);
    assert_eq!(l.last_size, 100);
    // 2000 bytes within 200 ms at 1000 B/s: the window needs 2000 ms, 200 spent
    assert_eq!(l.check_limit(5200, 2100), Some(1800));
    // under the limit: no pause
    assert_eq!(l.check_limit(5300, 600), None);
    // a second later a new window starts
    assert_eq!(l.check_limit(6000, 5000), None);
    assert_eq!(l.last_time, 6000);
}

#[test]
fn speed_limiter_without_limit_never_pauses() {
    let mut l = SpeedLimiter::new();
    assert_eq!(l.check_limit(10, 1_000_000), None);
    assert_eq!(l.last_time, 0);
}

#[test]
fn speed_limiter_new_limit_resets_window() {
    let mut l = SpeedLimiter { last_time: 7, last_size: 9, speed_limit: 10 };
    l.update_speed_limit(10);
    assert_eq!(l, SpeedLimiter { last_time: 7, last_size: 9, speed_limit: 10 });
    l.update_speed_limit(20);
    assert_eq!(l, SpeedLimiter { last_time: 0, last_size: 0, speed_limit: 20 });
}

#[test]
fn effective_limit_picks_lower_set_limit() {
    assert_eq!(effective_speed_limit(0, 0), 0);
    assert_eq!(effective_speed_limit(0, 500), 500);
    assert_eq!(effective_speed_limit(300, 0), 300);
    assert_eq!(effective_speed_limit(300, 500), 300);
    assert_eq!(effective_speed_limit(900, 500), 500);
}

#[test]
fn progress_tick_reports_and_limits() {
    let mut l = SpeedLimiter::new();
    let mut t = tick(5000, 100, 0, 1000);
    t.last_notify = 3000;
    t.background_notify = true;
    t.background_notify_time = 4000;
    let d = progress_tick(&mut l, t).unwrap();
    assert!(d.notify_front);
    assert!(d.notify_background);
    assert_eq!(d.pause, None);
    assert_eq!(l.speed_limit, 1000);
    let mut t2 = tick(5200, 2100, 0, 1000);
    t2.last_notify = 5000;
    t2.background_notify_time = 5000;
    let d2 = progress_tick(&mut l, t2).unwrap();
    assert!(!d2.notify_front);
    assert!(!d2.notify_background);
    assert_eq!(d2.pause, Some(1800));
}

#[test]
fn progress_tick_stops_when_aborted() {
    let mut l = SpeedLimiter { last_time: 1, last_size: 2, speed_limit: 3 };
    let mut t = tick(5000, 100, 0, 1000);
    t.aborted = true;
    assert!(progress_tick(&mut l, t).is_none());
    assert_eq!(l, SpeedLimiter { last_time: 1, last_size: 2, speed_limit: 3 });
}

#[test]
fn record_write_counts_bytes() {
    let mut p = Progress::new(vec![100]);
    assert_eq!(record_write(&mut p, 30, 10), 40);
    assert_eq!(p.processed, vec![30]);
    assert_eq!(p.common_data.total_processed, 30);
}

#[test]
fn upload_range_sizes() {
    assert_eq!(change_upload_size(0, -1, 100), 100);
    assert_eq!(change_upload_size(10, 19, 100), 10);
    assert_eq!(change_upload_size(10, 500, 100), 90);
    assert_eq!(change_upload_size(50, 20, 100), 100);
    assert_eq!(change_upload_size(0, 0, 100), 1);
}

#[test]
fn task_total_sizes() {
    assert_eq!(upload_total_size(&vec![1, 2, 3]), 6);
    assert_eq!(new_total_size(Action::Upload, &vec![4, 5]), 9);
    assert_eq!(new_total_size(Action::Download, &vec![4, 5]), -1);
    assert_eq!(restored_total_size(Action::Download, &vec![], &vec![77, 1]), 77);
    assert_eq!(restored_total_size(Action::Download, &vec![], &vec![]), -1);
    assert_eq!(restored_total_size(Action::Upload, &vec![3, 3], &vec![77]), 6);
    assert_eq!(initial_sizes(Action::Upload, 1, 10, 19, vec![100, 200]), vec![100, 10]);
    assert_eq!(initial_sizes(Action::Download, 0, 10, 19, vec![100]), vec![100]);
    assert_eq!(initial_sizes(Action::Upload, 5, 10, 19, vec![100]), vec![100]);
}

#[test]
fn range_requests() {
    assert!(!require_range(0, -1));
    assert!(require_range(1, -1));
    assert!(require_range(0, 0));
    assert_eq!(range_header(100, -1), "bytes=100-");
    assert_eq!(range_header(0, 499), "bytes=0-499");
    assert_eq!(if_range_value(Some("e1".to_string()), Some("lm".to_string())), Some("e1".to_string()));
    assert_eq!(if_range_value(None, Some("lm".to_string())), Some("lm".to_string()));
    assert_eq!(if_range_value(None, None), None);
    assert_eq!(download_range_plan(0, 0, -1, false), Ok(RangePlan::Whole));
    assert_eq!(download_range_plan(0, 5, 9, false), Ok(RangePlan::Range { begins: 5, ends: 9 }));
    assert_eq!(download_range_plan(10, 5, 9, true), Ok(RangePlan::Range { begins: 15, ends: 9 }));
    assert_eq!(download_range_plan(10, 0, -1, false), Ok(RangePlan::Restart));
    assert_eq!(download_range_plan(10, 5, -1, false), Err(Reason::UnsupportedRangeRequest));
}

#[test]
fn request_methods() {
    assert_eq!(method_for("PUT", Action::Download, Version::API9), "PUT");
    assert_eq!(method_for("GET", Action::Upload, Version::API10), "GET");
    assert_eq!(method_for("PATCH", Action::Upload, Version::API10), "PUT");
    assert_eq!(method_for("", Action::Upload, Version::API9), "POST");
    assert_eq!(method_for("", Action::Download, Version::API9), "GET");
    assert_eq!(method_for("", Action::Any, Version::API9), "");
    // the configured method is read without regard to case
    assert_eq!(request_method("post", Action::Download, Version::API10), "POST");
    assert_eq!(request_method("get", Action::Upload, Version::API10), "GET");
    assert_eq!(request_method("delete", Action::Upload, Version::API9), "POST");
}

#[test]
fn rest_time_defaults() {
    assert_eq!(get_rest_time(0, false, 100), 500);
    assert_eq!(get_rest_time(0, true, 100), 604700);
    assert_eq!(get_rest_time(50, true, 100), 0);
    assert_eq!(get_rest_time(150, false, 100), 50);
}

#[test]
fn retries_after_network_errors() {
    assert_eq!(network_retry(0, true), (1, Err(TaskError::Waiting(TaskPhase::NeedRetry))));
    assert_eq!(network_retry(3, false), (4, Err(TaskError::Waiting(TaskPhase::NetworkOffline))));
    assert_eq!(network_retry(4, true), (4, Ok(())));
    assert_eq!(after_retry(Ok(()), Reason::Tcp), TaskError::Failed(Reason::Tcp));
    assert_eq!(
        after_retry(Err(TaskError::Waiting(TaskPhase::NeedRetry)), Reason::Tcp),
        TaskError::Waiting(TaskPhase::NeedRetry)
    );
}

#[test]
fn download_error_kinds() {
    assert_eq!(
        download_error_verdict(ClientErrorKind::Timeout, ""),
        ErrorVerdict::Fail(TaskError::Failed(Reason::ContinuousTaskTimeout))
    );
    assert_eq!(
        download_error_verdict(ClientErrorKind::UserAborted, ""),
        ErrorVerdict::Fail(TaskError::Waiting(TaskPhase::UserAbort))
    );
    assert_eq!(
        download_error_verdict(ClientErrorKind::BodyTransfer, "x: Below low speed limit"),
        ErrorVerdict::Fail(TaskError::Failed(Reason::LowSpeed))
    );
    assert_eq!(
        download_error_verdict(ClientErrorKind::BodyDecode, "broken"),
        ErrorVerdict::RetryOr(Reason::OthersError)
    );
    assert_eq!(
        download_error_verdict(ClientErrorKind::Other, "No space left on device (os error 28)"),
        ErrorVerdict::Fail(TaskError::Failed(Reason::InsufficientSpace))
    );
    assert_eq!(
        download_error_verdict(ClientErrorKind::Other, "other"),
        ErrorVerdict::Fail(TaskError::Failed(Reason::OthersError))
    );
}

#[test]
fn download_request_errors() {
    assert_eq!(
        request_error_verdict(ClientErrorKind::Request, false, false, ""),
        ErrorVerdict::Fail(TaskError::Failed(Reason::RequestError))
    );
    assert_eq!(
        request_error_verdict(ClientErrorKind::Redirect, false, false, ""),
        ErrorVerdict::Fail(TaskError::Failed(Reason::RedirectError))
    );
    assert_eq!(
        request_error_verdict(ClientErrorKind::Connect, true, false, ""),
        ErrorVerdict::RetryOr(Reason::Dns)
    );
    assert_eq!(
        request_error_verdict(ClientErrorKind::ConnectionUpgrade, false, true, ""),
        ErrorVerdict::RetryOr(Reason::Ssl)
    );
    assert_eq!(
        request_error_verdict(ClientErrorKind::Connect, false, false, ""),
        ErrorVerdict::RetryOr(Reason::Tcp)
    );
    assert_eq!(
        request_error_verdict(ClientErrorKind::BodyTransfer, false, false, ""),
        ErrorVerdict::RetryOr(Reason::OthersError)
    );
    assert_eq!(
        request_error_verdict(ClientErrorKind::Build, false, false, "No space left on device"),
        ErrorVerdict::Fail(TaskError::Failed(Reason::InsufficientSpace))
    );
}

#[test]
fn download_status_codes() {
    assert_eq!(status_verdict(500, 0, false), (0, Err(TaskError::Failed(Reason::ProtocolError))));
    assert_eq!(status_verdict(404, 1, false), (1, Err(TaskError::Failed(Reason::ProtocolError))));
    assert_eq!(status_verdict(302, 0, false), (0, Err(TaskError::Failed(Reason::ProtocolError))));
    assert_eq!(status_verdict(408, 0, false), (1, Err(TaskError::Waiting(TaskPhase::NeedRetry))));
    assert_eq!(status_verdict(408, 1, false), (2, Err(TaskError::Waiting(TaskPhase::NeedRetry))));
    assert_eq!(status_verdict(408, 2, false), (2, Err(TaskError::Failed(Reason::ProtocolError))));
    assert_eq!(status_verdict(200, 1, false), (0, Ok(true)));
    assert_eq!(
        status_verdict(200, 0, true),
        (0, Err(TaskError::Failed(Reason::UnsupportedRangeRequest)))
    );
    assert_eq!(status_verdict(206, 2, true), (0, Ok(false)));
}

#[test]
fn download_loop_steps() {
    assert!(matches!(loop_step(Ok(())), LoopStep::Finish(Some(Ok(())))));
    assert!(matches!(loop_step(Err(TaskError::Waiting(TaskPhase::NeedRetry))), LoopStep::Again));
    assert!(matches!(loop_step(Err(TaskError::Waiting(TaskPhase::UserAbort))), LoopStep::Finish(None)));
    assert!(matches!(
        loop_step(Err(TaskError::Waiting(TaskPhase::NetworkOffline))),
        LoopStep::Finish(Some(Err(Reason::NetworkOffline)))
    ));
    assert!(matches!(
        loop_step(Err(TaskError::Failed(Reason::Dns))),
        LoopStep::Finish(Some(Err(Reason::Dns)))
    ));
    assert_eq!(rest_time_after(100, 30), 70);
    assert_eq!(rest_time_after(10, 11), u64::MAX);
}

#[test]
fn download_progress_and_sizes() {
    let mut p = Progress::new(vec![10, 20]);
    prepare_download(&mut p, 42);
    assert_eq!(p.processed, vec![42]);
    assert_eq!(p.common_data.total_processed, 42);
    assert_eq!(p.common_data.index, 0);
    assert_eq!(p.common_data.state, State::Running.repr());
    assert_eq!(downloaded_sizes(&vec![42]), vec![42]);
    assert_eq!(downloaded_sizes(&vec![]), vec![0]);
    assert_eq!(sizes_with_length(100, &vec![42]), vec![142]);
    reset_downloaded_progress(&mut p);
    assert_eq!(p.processed, vec![0]);
    assert_eq!(p.common_data.total_processed, 0);
}

#[test]
fn download_content_length() {
    assert_eq!(content_length(Some("1234"), true), Ok(Some(1234)));
    assert_eq!(content_length(Some("abc"), true), Ok(None));
    assert_eq!(content_length(None, false), Ok(None));
    assert_eq!(content_length(None, true), Err(TaskError::Failed(Reason::GetFileSizeFailed)));
}

#[test]
fn download_local_file_checks() {
    let mut user = FileSpec::user_file(3);
    user.is_user_file = true;
    assert!(!checks_local_file(&vec![user]));
    assert!(checks_local_file(&vec![]));
    assert_eq!(local_file_verdict(LocalFile::RegularFile), Ok(()));
    assert_eq!(local_file_verdict(LocalFile::Unknown), Ok(()));
    assert_eq!(local_file_verdict(LocalFile::Missing), Err(TaskError::Failed(Reason::IoError)));
    assert_eq!(local_file_verdict(LocalFile::NotAFile), Err(TaskError::Failed(Reason::IoError)));
}

#[test]
fn upload_shapes() {
    assert!(is_multipart(Some("multipart/form-data"), "PUT"));
    assert!(!is_multipart(Some("text/plain"), "POST"));
    assert!(is_multipart(None, "post"));
    assert!(!is_multipart(None, "put"));
    assert_eq!(stream_content_type(None), Some("application/octet-stream"));
    assert_eq!(stream_content_type(Some("x")), None);
    assert_eq!(upload_length(100, 40), 60);
    assert_eq!(read_budget(100, 40, None), 60);
    assert_eq!(read_budget(100, 40, Some(70)), 30);
    assert_eq!(upload_seek_position(true, 200, 100, 10, 5), 15);
    assert_eq!(upload_seek_position(true, 100, 100, 10, 5), 5);
    assert_eq!(upload_seek_position(false, 200, 100, 10, 5), 5);
    assert_eq!(reuse_position(true, 9), 9);
    assert_eq!(reuse_position(false, 9), 0);
}

#[test]
fn upload_progress_bookkeeping() {
    let mut p = Progress::new(vec![10, 20, 30]);
    p.processed = vec![10, 5, 0];
    assert_eq!(processed_before(&p.processed, 2), 15);
    reset_upload_progress(&mut p, 1, false);
    assert_eq!(p.processed, vec![10, 0, 0]);
    assert_eq!(p.common_data.index, 1);
    assert_eq!(p.common_data.total_processed, 10);
    p.processed = vec![10, 7, 0];
    reset_upload_progress(&mut p, 1, true);
    assert_eq!(p.processed, vec![10, 7, 0]);
    assert_eq!(record_upload_read(&mut p, 1, 3, None), None);
    assert_eq!(p.processed, vec![10, 10, 0]);
    assert_eq!(p.common_data.total_processed, 13);
    assert_eq!(record_upload_read(&mut p, 1, 3, Some(4)), Some(7));
    assert_eq!(p.processed, vec![10, 10, 0]);
    assert_eq!(batch_current_index(0, &vec![10, 20, 30]), 0);
    assert_eq!(batch_current_index(10, &vec![10, 20, 30]), 0);
    assert_eq!(batch_current_index(11, &vec![10, 20, 30]), 1);
    assert_eq!(batch_current_index(55, &vec![10, 20, 30]), 2);
    assert_eq!(batch_current_index(61, &vec![10, 20, 30]), 0);
}

#[test]
fn upload_answers() {
    assert_eq!(upload_status_verdict(200, 2), (0, Ok(())));
    assert_eq!(upload_status_verdict(408, 0), (1, Err(TaskError::Waiting(TaskPhase::NeedRetry))));
    assert_eq!(upload_status_verdict(408, 2), (2, Err(TaskError::Failed(Reason::ProtocolError))));
    assert_eq!(upload_status_verdict(503, 1), (1, Err(TaskError::Failed(Reason::ProtocolError))));
    assert_eq!(
        upload_error_verdict(ClientErrorKind::BodyTransfer, false, false, "Below low speed limit"),
        ErrorVerdict::Fail(TaskError::Failed(Reason::LowSpeed))
    );
    assert_eq!(
        upload_error_verdict(ClientErrorKind::BodyTransfer, false, false, "reset"),
        ErrorVerdict::RetryOr(Reason::OthersError)
    );
    assert_eq!(
        upload_error_verdict(ClientErrorKind::UserAborted, false, false, ""),
        ErrorVerdict::Fail(TaskError::Waiting(TaskPhase::UserAbort))
    );
    assert_eq!(
        upload_error_verdict(ClientErrorKind::Connect, false, true, ""),
        ErrorVerdict::RetryOr(Reason::Ssl)
    );
}

#[test]
fn task_file_statuses() {
    let mut a = FileSpec::user_file(1);
    a.path = "/data/a".to_string();
    a.is_user_file = false;
    let mut b = FileSpec::user_file(2);
    b.path = "/data/b".to_string();
    b.is_user_file = true;
    let specs = vec![a, b];
    assert!(check_file_specs(&specs, &vec![true, false]));
    assert!(!check_file_specs(&specs, &vec![false, true]));
    let st = create_each_file_status(&specs, 1, Reason::Tcp);
    assert_eq!(st.len(), 2);
    assert_eq!(st[0].path, "/data/a");
    assert_eq!(st[0].reason, Reason::Default);
    assert_eq!(st[1].reason, Reason::Tcp);
    assert_eq!(each_file_reason(3, &vec![Reason::Dns]), vec![Reason::Dns, Reason::Default, Reason::Default]);
}

#[test]
fn task_info_mime_types() {
    assert_eq!(info_mime_type(Version::API10, Action::Download, Some("image/png"), "x"), "image/png");
    assert_eq!(info_mime_type(Version::API10, Action::Download, None, "x"), "");
    assert_eq!(info_mime_type(Version::API10, Action::Upload, None, "x"), "multipart/form-data");
    assert_eq!(info_mime_type(Version::API9, Action::Upload, Some("a"), "text/html"), "text/html");
}

#[test]
fn retry_loop_starts_with_no_retries() {
    let mut l = RetryLoop::start(100);
    assert_eq!(l.tries, 0);
    l.tries = 2;
    assert!(matches!(l.after_attempt(Err(TaskError::Waiting(TaskPhase::NeedRetry)), 30), LoopStep::Again));
    assert_eq!((l.tries, l.rest_time), (2, 70));
    assert!(matches!(l.after_attempt(Ok(()), 5), LoopStep::Finish(Some(Ok(())))));
    assert_eq!(l.rest_time, 70);
}

#[test]
fn response_headers_kept_in_lower_case() {
    let headers = vec![
        ("Content-Type".to_string(), Some("text/plain".to_string())),
        ("X-Bad".to_string(), None),
        ("ETAG".to_string(), Some("\"a\"".to_string())),
        ("etag".to_string(), Some("\"b\"".to_string())),
    ];
    let extras = response_extras(&headers);
    assert_eq!(extras.len(), 2);
    assert_eq!(extras.get("content-type").map(|s| s.as_str()), Some("text/plain"));
    assert_eq!(extras.get("etag").map(|s| s.as_str()), Some("\"b\""));
    assert!(extras.get("x-bad").is_none());
    assert!(response_extras(&vec![]).is_empty());
}
