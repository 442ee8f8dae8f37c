use request_services::client_manager::ClientManager;
use request_services::error::ErrorCode;
use request_services::notification_bar::task_handle::{TaskAction, TaskManagerWrapper};
use request_services::run_count::RunCountManager;
use request_services::task_count::{statistics_message, RequestTaskCount};
use std::cell::RefCell;

#[test]
fn client_channels_and_subscriptions() {
    let mut m: ClientManager<String> = ClientManager::new();
    // subscribing needs an open channel
    assert_eq!(m.handle_subscribe(1, 100), ErrorCode::ChannelNotOpen);
    assert_eq!(m.route(1), None);
    // a channel that cannot be made
    assert_eq!(m.handle_open_channel(100, |_| None), Err(ErrorCode::Other));
    assert_eq!(m.handle_open_channel(100, |pid| Some(format!("chan-{}", pid))), Ok(&"chan-100".to_string()));
    // an open channel is reused
    assert_eq!(m.handle_open_channel(100, |_| Some("other".to_string())), Ok(&"chan-100".to_string()));
    assert_eq!(m.handle_subscribe(1, 100), ErrorCode::ErrOk);
    assert_eq!(m.route(1), Some(&"chan-100".to_string()));
    assert_eq!(m.handle_unsubscribe(1), ErrorCode::ErrOk);
    assert_eq!(m.route(1), None);
    assert_eq!(m.handle_unsubscribe(1), ErrorCode::Other);
}

#[test]
fn client_termination_and_finished_tasks() {
    let mut m: ClientManager<u8> = ClientManager::new();
    let _ = m.handle_open_channel(7, |_| Some(9u8));
    assert_eq!(m.handle_subscribe(1, 7), ErrorCode::ErrOk);
    assert_eq!(m.handle_subscribe(2, 7), ErrorCode::ErrOk);
    m.handle_task_finished(2);
    assert_eq!(m.route(2), None);
    assert_eq!(m.handle_process_terminated(7), (Some(9), ErrorCode::ErrOk));
    assert_eq!(m.route(1), None);
    // the subscription outlives the channel, but has nowhere to go
    assert_eq!(m.handle_unsubscribe(1), ErrorCode::Other);
    assert_eq!(m.handle_process_terminated(7), (None, ErrorCode::ErrOk));
}

#[test]
fn run_count_listeners() {
    let mut m: RunCountManager<&'static str> = RunCountManager::new();
    assert_eq!(m.subscribe_run_count(1, "a"), (0, ErrorCode::ErrOk));
    assert_eq!(m.subscribe_run_count(2, "b"), (0, ErrorCode::ErrOk));
    let told = RefCell::new(Vec::new());
    m.change_run_count(3, |r: &&'static str, c: i64| {
        told.borrow_mut().push((*r, c));
        *r != "b"
    });
    let mut heard = told.borrow().clone();
    heard.sort();
    assert_eq!(heard, vec![("a", 3), ("b", 3)]);
    // "b" could not be reached and is gone
    assert_eq!(m.unsubscribe_run_count(2), ErrorCode::Other);
    assert_eq!(m.subscribe_run_count(3, "c"), (3, ErrorCode::ErrOk));
    // the same count tells no one
    let calls = RefCell::new(0);
    m.change_run_count(3, |_: &&'static str, _: i64| {
        *calls.borrow_mut() += 1;
        false
    });
    assert_eq!(*calls.borrow(), 0);
    assert_eq!(m.unsubscribe_run_count(1), ErrorCode::ErrOk);
    assert_eq!(m.unsubscribe_run_count(1), ErrorCode::Other);
}

#[test]
fn task_statistics_reports() {
    let mut c = RequestTaskCount::new();
    assert_eq!(c.task_unload(), None);
    c.task_complete_add();
    c.task_complete_add();
    c.task_fail_add();
    assert_eq!(c.task_unload(), Some((2, 1)));
    assert_eq!(c, RequestTaskCount::new());
    assert_eq!(c.task_unload(), None);
    assert_eq!(statistics_message(2, 1), "Task Completed 2, failed 1");
}

#[test]
fn notification_bar_buttons() {
    let w = TaskManagerWrapper::new(10u64);
    let sent = RefCell::new(Vec::new());
    let ok = w.pause_task(5, |_| Some(77), |tm: &u64, a: TaskAction, uid: u64, tid: u32| {
        sent.borrow_mut().push((*tm, a, uid, tid));
        Some(ErrorCode::ErrOk)
    });
    assert!(ok);
    assert_eq!(sent.borrow().clone(), vec![(10, TaskAction::Pause, 77, 5)]);
    // no owner: nothing is sent
    assert!(!w.resume_task(5, |_| None, |_: &u64, _: TaskAction, _: u64, _: u32| Some(ErrorCode::ErrOk)));
    assert!(!w.stop_task(5, |_| Some(1), |_: &u64, _: TaskAction, _: u64, _: u32| Some(ErrorCode::TaskStateErr)));
    assert!(!w.stop_task(5, |_| Some(1), |_: &u64, _: TaskAction, _: u64, _: u32| None));
}
