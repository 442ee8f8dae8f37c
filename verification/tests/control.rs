use std::cell::RefCell;

use request_services::control::{control_tasks, pause, remove, start};
use request_services::error::ErrorCode;
use request_services::parcel::{MsgParcel, ParcelValue};

fn request(values: Vec<ParcelValue>) -> MsgParcel {
    MsgParcel::from_values(values)
}

fn ids(version: Option<u32>, ids: &[&str]) -> MsgParcel {
    let mut v = Vec::new();
    if let Some(version) = version {
        v.push(ParcelValue::U32(version));
    }
    v.push(ParcelValue::U32(ids.len() as u32));
    for id in ids {
        v.push(ParcelValue::Str(id.to_string()));
    }
    request(v)
}

fn codes(reply: MsgParcel) -> Vec<ErrorCode> {
    reply
        .into_values()
        .into_iter()
        .map(|v| match v {
            ParcelValue::Code(c) => c,
            other => panic!("not a code: {:?}", other),
        })
        .collect()
}

/// Task 1 belongs to uid 10, task 2 to uid 20, task 3 to uid 30 of another
/// account; task 4 belongs to uid 10 but the task manager refuses it.
fn owner(id: u32) -> Option<u64> {
    match id {
        1 | 4 => Some(10),
        2 => Some(20),
        3 => Some(30),
        _ => None,
    }
}

fn current_account(uid: u64) -> bool {
    uid != 30
}

#[test]
fn pause_answers_each_task_in_order() {
    let sent = RefCell::new(Vec::new());
    let mut data = ids(Some(2), &["1", "2", "x", "99", "3", "4"]);
    let mut reply = MsgParcel::new();
    let r = pause(&mut data, &mut reply, 10, false, false, owner, current_account, |uid, id| {
        sent.borrow_mut().push((uid, id));
        if id == 4 {
            (true, Some(ErrorCode::TaskStateErr))
        } else {
            (true, Some(ErrorCode::ErrOk))
        }
    });
    assert_eq!(r, Ok(()));
    assert_eq!(data.readable(), 0);
    assert_eq!(
        codes(reply),
        vec![
            ErrorCode::ErrOk,
            ErrorCode::ErrOk,
            ErrorCode::TaskNotFound,
            ErrorCode::TaskNotFound,
            ErrorCode::TaskNotFound,
            ErrorCode::TaskNotFound,
            ErrorCode::TaskStateErr,
        ]
    );
    assert_eq!(*sent.borrow(), vec![(10, 1), (10, 4)]);
}

#[test]
fn managers_act_on_tasks_of_others() {
    let mut data = ids(Some(2), &["1", "2", "3"]);
    let mut reply = MsgParcel::new();
    let r = remove(&mut data, &mut reply, 77, true, false, owner, current_account, |_, _| (true, Some(ErrorCode::ErrOk)));
    assert_eq!(r, Ok(()));
    assert_eq!(
        codes(reply),
        vec![ErrorCode::ErrOk, ErrorCode::ErrOk, ErrorCode::ErrOk, ErrorCode::TaskNotFound]
    );
}

#[test]
fn task_manager_failures_answer_other() {
    let mut data = ids(None, &["1", "4"]);
    let mut reply = MsgParcel::new();
    let r = start(&mut data, &mut reply, 10, false, true, owner, current_account, |_, id| {
        if id == 1 {
            (false, None)
        } else {
            (true, None)
        }
    });
    assert_eq!(r, Ok(()));
    assert_eq!(codes(reply), vec![ErrorCode::ErrOk, ErrorCode::Other, ErrorCode::Other]);
}

#[test]
fn api9_callers_need_the_internet_permission() {
    let mut data = ids(Some(1), &["1"]);
    let mut reply = MsgParcel::new();
    let r = pause(&mut data, &mut reply, 10, true, false, owner, current_account, |_, _| (true, Some(ErrorCode::ErrOk)));
    assert_eq!(r, Err(()));
    assert_eq!(codes(reply), vec![ErrorCode::Permission]);

    // removing also accepts the download management permission
    let mut data = ids(Some(1), &["1"]);
    let mut reply = MsgParcel::new();
    let r = remove(&mut data, &mut reply, 10, true, false, owner, current_account, |_, _| (true, Some(ErrorCode::ErrOk)));
    assert_eq!(r, Ok(()));
    assert_eq!(codes(reply), vec![ErrorCode::ErrOk, ErrorCode::ErrOk]);

    let mut data = ids(Some(1), &["1"]);
    let mut reply = MsgParcel::new();
    let r = remove(&mut data, &mut reply, 10, false, false, owner, current_account, |_, _| (true, Some(ErrorCode::ErrOk)));
    assert_eq!(r, Err(()));
    assert_eq!(codes(reply), vec![ErrorCode::Permission]);

    let mut data = ids(None, &["1"]);
    let mut reply = MsgParcel::new();
    let r = start(&mut data, &mut reply, 10, false, false, owner, current_account, |_, _| (true, Some(ErrorCode::ErrOk)));
    assert_eq!(r, Err(()));
    assert_eq!(codes(reply), vec![ErrorCode::Permission]);
}

#[test]
fn batches_over_the_limit_are_refused() {
    let many: Vec<String> = (0..501).map(|i| i.to_string()).collect();
    let refs: Vec<&str> = many.iter().map(|s| s.as_str()).collect();
    let mut data = ids(None, &refs);
    let mut reply = MsgParcel::new();
    let r = control_tasks(&mut data, &mut reply, 10, false, owner, current_account, |_, _| (true, Some(ErrorCode::ErrOk)));
    assert_eq!(r, Err(()));
    assert_eq!(codes(reply), vec![ErrorCode::Other]);

    let fine: Vec<&str> = refs[..500].to_vec();
    let mut data = ids(None, &fine);
    let mut reply = MsgParcel::new();
    let r = control_tasks(&mut data, &mut reply, 10, false, owner, current_account, |_, _| (true, Some(ErrorCode::ErrOk)));
    assert_eq!(r, Ok(()));
    assert_eq!(codes(reply).len(), 501);
}

#[test]
fn malformed_requests_fail_without_a_reply() {
    // no version
    let mut data = MsgParcel::new();
    let mut reply = MsgParcel::new();
    assert_eq!(pause(&mut data, &mut reply, 10, true, true, owner, current_account, |_, _| (true, None)), Err(()));
    assert_eq!(reply.readable(), 0);

    // fewer ids than announced
    let mut data = request(vec![ParcelValue::U32(3), ParcelValue::Str("1".to_string())]);
    let mut reply = MsgParcel::new();
    assert_eq!(start(&mut data, &mut reply, 10, true, true, owner, current_account, |_, _| (true, None)), Err(()));
    assert_eq!(reply.readable(), 0);

    // an id that is no text
    let mut data = request(vec![ParcelValue::U32(1), ParcelValue::U32(1)]);
    let mut reply = MsgParcel::new();
    assert_eq!(control_tasks(&mut data, &mut reply, 10, true, owner, current_account, |_, _| (true, None)), Err(()));
    assert_eq!(reply.readable(), 0);
}

use request_services::config::Mode;
use request_services::control::{set_max_speed, set_mode};

fn speeds(entries: &[(&str, i64)]) -> MsgParcel {
    let mut v = vec![ParcelValue::U32(entries.len() as u32)];
    for (id, speed) in entries {
        v.push(ParcelValue::Str(id.to_string()));
        v.push(ParcelValue::I64(*speed));
    }
    request(v)
}

#[test]
fn speed_limits_per_task() {
    let sent = RefCell::new(Vec::new());
    let mut data = speeds(&[("1", 16384), ("1", 16383), ("y", 20000), ("2", 20000), ("5", 20000), ("4", 30000)]);
    let mut reply = MsgParcel::new();
    let r = set_max_speed(&mut data, &mut reply, 10, false, owner, |uid, id, speed| {
        sent.borrow_mut().push((uid, id, speed));
        if id == 4 {
            (false, None)
        } else {
            (true, Some(ErrorCode::ErrOk))
        }
    });
    assert_eq!(r, Ok(()));
    assert_eq!(
        codes(reply),
        vec![
            ErrorCode::ErrOk,
            ErrorCode::ErrOk,
            ErrorCode::ParameterCheck,
            ErrorCode::TaskNotFound,
            ErrorCode::TaskNotFound,
            ErrorCode::TaskNotFound,
            ErrorCode::Other,
        ]
    );
    assert_eq!(*sent.borrow(), vec![(10, 1, 16384), (10, 4, 30000)]);
}

#[test]
fn managers_limit_any_task_for_its_owner() {
    let sent = RefCell::new(Vec::new());
    let mut data = speeds(&[("2", 20000), ("5", 20000)]);
    let mut reply = MsgParcel::new();
    let r = set_max_speed(&mut data, &mut reply, 10, true, owner, |uid, id, speed| {
        sent.borrow_mut().push((uid, id, speed));
        (true, Some(ErrorCode::ErrOk))
    });
    assert_eq!(r, Ok(()));
    assert_eq!(codes(reply), vec![ErrorCode::ErrOk, ErrorCode::ErrOk, ErrorCode::TaskNotFound]);
    assert_eq!(*sent.borrow(), vec![(20, 2, 20000)]);
}

#[test]
fn speed_requests_that_fail() {
    // a speed that is missing
    let mut data = request(vec![ParcelValue::U32(1), ParcelValue::Str("1".to_string())]);
    let mut reply = MsgParcel::new();
    assert_eq!(set_max_speed(&mut data, &mut reply, 10, true, owner, |_, _, _| (true, None)), Err(()));
    assert_eq!(reply.readable(), 0);
    // too many tasks
    let mut data = request(vec![ParcelValue::U32(501)]);
    let mut reply = MsgParcel::new();
    assert_eq!(set_max_speed(&mut data, &mut reply, 10, true, owner, |_, _, _| (true, None)), Err(()));
    assert_eq!(codes(reply), vec![ErrorCode::Other]);
}

fn mode_request(id: &str, mode: u32) -> MsgParcel {
    request(vec![ParcelValue::Str(id.to_string()), ParcelValue::U32(mode)])
}

fn mode_of(id: u32) -> Option<Mode> {
    match id {
        1 | 4 => Some(Mode::BackGround),
        2 => Some(Mode::FrontEnd),
        _ => None,
    }
}

#[test]
fn mode_changes() {
    let sent = RefCell::new(Vec::new());
    let send = |uid: u64, id: u32, mode: Mode| {
        sent.borrow_mut().push((uid, id, mode));
        (true, Some(ErrorCode::ErrOk))
    };
    let run = |data: &mut MsgParcel, permission: bool| {
        let mut reply = MsgParcel::new();
        let r = set_mode(data, &mut reply, permission, mode_of, owner, &send);
        (r, codes(reply))
    };
    assert_eq!(run(&mut mode_request("1", 1), false), (Err(()), vec![ErrorCode::Permission]));
    assert_eq!(run(&mut mode_request("z", 1), true), (Err(()), vec![ErrorCode::TaskNotFound]));
    assert_eq!(run(&mut mode_request("9", 1), true), (Err(()), vec![ErrorCode::TaskNotFound]));
    // the mode stays, or the wildcard is asked for: nothing to do
    assert_eq!(run(&mut mode_request("2", 1), true), (Ok(()), vec![ErrorCode::ErrOk]));
    assert_eq!(run(&mut mode_request("1", 7), true), (Ok(()), vec![ErrorCode::ErrOk]));
    assert!(sent.borrow().is_empty());
    assert_eq!(run(&mut mode_request("1", 1), true), (Ok(()), vec![ErrorCode::ErrOk]));
    assert_eq!(*sent.borrow(), vec![(10, 1, Mode::FrontEnd)]);
    // a missing mode fails with no answer
    let mut data = request(vec![ParcelValue::Str("1".to_string())]);
    assert_eq!(run(&mut data, true), (Err(()), vec![]));
}

#[test]
fn mode_change_refused_by_the_task_manager() {
    let mut reply = MsgParcel::new();
    let r = set_mode(&mut mode_request("4", 1), &mut reply, true, mode_of, owner, |_, _, _| (true, Some(ErrorCode::TaskStateErr)));
    assert_eq!(r, Ok(()));
    assert_eq!(codes(reply), vec![ErrorCode::TaskStateErr]);
    let mut reply = MsgParcel::new();
    let r = set_mode(&mut mode_request("4", 1), &mut reply, true, mode_of, owner, |_, _, _| (true, None));
    assert_eq!(r, Err(()));
    assert_eq!(codes(reply), vec![ErrorCode::Other]);
}
