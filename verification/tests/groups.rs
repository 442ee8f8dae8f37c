use std::cell::{Cell, RefCell};

use request_services::config::Action;
use request_services::error::ErrorCode;
use request_services::groups::{attach_group, create_group, delete_group, disable_task_notifications};
use request_services::parcel::{MsgParcel, ParcelValue};
use request_services::permission::ManagerPermission;

fn texts(v: &[&str]) -> Vec<ParcelValue> {
    v.iter().map(|s| ParcelValue::Str(s.to_string())).collect()
}

fn list(group: Option<&str>, ids: &[&str]) -> MsgParcel {
    let mut v = Vec::new();
    if let Some(g) = group {
        v.push(ParcelValue::Str(g.to_string()));
    }
    v.push(ParcelValue::U32(ids.len() as u32));
    v.extend(texts(ids));
    MsgParcel::from_values(v)
}

fn codes(reply: MsgParcel) -> Vec<ErrorCode> {
    reply
        .into_values()
        .into_iter()
        .map(|v| match v {
            ParcelValue::Code(c) => c,
            other => panic!("not a code: {:?}", other),
        })
        .collect()
}

fn owner(id: u32) -> Option<u64> {
    match id {
        1 | 2 => Some(10),
        3 => Some(20),
        _ => None,
    }
}

#[test]
fn attaching_tasks() {
    let sent = RefCell::new(Vec::new());
    let send = |uid: u64, ids: Vec<u32>, g: u32| {
        sent.borrow_mut().push((uid, ids, g));
        (true, Some(ErrorCode::ErrOk))
    };
    let mut reply = MsgParcel::new();
    assert_eq!(attach_group(&mut list(Some("9"), &["1", "2"]), &mut reply, 10, owner, &send), Ok(()));
    assert_eq!(codes(reply), vec![ErrorCode::ErrOk]);
    assert_eq!(*sent.borrow(), vec![(10, vec![1, 2], 9)]);

    for ids in [&["1", "3"][..], &["1", "x"][..], &["4"][..]] {
        let mut reply = MsgParcel::new();
        assert_eq!(attach_group(&mut list(Some("9"), ids), &mut reply, 10, owner, &send), Ok(()));
        assert_eq!(codes(reply), vec![ErrorCode::TaskNotFound]);
    }
    assert_eq!(sent.borrow().len(), 1);

    let mut reply = MsgParcel::new();
    assert_eq!(attach_group(&mut list(Some("g"), &["1"]), &mut reply, 10, owner, &send), Ok(()));
    assert_eq!(codes(reply), vec![ErrorCode::GroupNotFound]);

    // the task manager's answer is passed on; a missing answer is Other
    let mut reply = MsgParcel::new();
    attach_group(&mut list(Some("9"), &["1"]), &mut reply, 10, owner, |_, _, _| (true, Some(ErrorCode::GroupNotFound))).unwrap();
    assert_eq!(codes(reply), vec![ErrorCode::GroupNotFound]);
    let mut reply = MsgParcel::new();
    attach_group(&mut list(Some("9"), &["1"]), &mut reply, 10, owner, |_, _, _| (true, None)).unwrap();
    assert_eq!(codes(reply), vec![ErrorCode::Other]);
    // a message the task manager did not take fails with no answer
    let mut reply = MsgParcel::new();
    assert_eq!(attach_group(&mut list(Some("9"), &["1"]), &mut reply, 10, owner, |_, _, _| (false, None)), Err(()));
    assert_eq!(reply.readable(), 0);
}

#[test]
fn closing_groups() {
    let mut data = MsgParcel::from_values(texts(&["5"]));
    let mut reply = MsgParcel::new();
    assert_eq!(delete_group(&mut data, &mut reply, 10, |g, uid| g == 5 && uid == 10), Ok(()));
    assert_eq!(codes(reply), vec![ErrorCode::ErrOk]);
    let mut data = MsgParcel::from_values(texts(&["6"]));
    let mut reply = MsgParcel::new();
    assert_eq!(delete_group(&mut data, &mut reply, 10, |g, _| g == 5), Ok(()));
    assert_eq!(codes(reply), vec![ErrorCode::GroupNotFound]);
    let mut data = MsgParcel::from_values(texts(&["six"]));
    let mut reply = MsgParcel::new();
    assert_eq!(delete_group(&mut data, &mut reply, 10, |_, _| true), Ok(()));
    assert_eq!(codes(reply), vec![ErrorCode::GroupNotFound]);
}

fn action_of(id: u32) -> Option<Action> {
    match id {
        3 => Some(Action::Upload),
        _ => None,
    }
}

#[test]
fn switching_task_notifications_off() {
    let checks = Cell::new(0);
    let disabled = RefCell::new(Vec::new());
    let mut reply = MsgParcel::new();
    let r = disable_task_notifications(
        &mut list(None, &["1", "3", "x", "4", "3"]),
        &mut reply,
        10,
        owner,
        || {
            checks.set(checks.get() + 1);
            ManagerPermission::ManagerDownLoad
        },
        action_of,
        |uid, id| disabled.borrow_mut().push((uid, id)),
    );
    assert_eq!(r, Ok(()));
    assert_eq!(
        codes(reply),
        vec![ErrorCode::ErrOk, ErrorCode::Permission, ErrorCode::TaskNotFound, ErrorCode::TaskNotFound, ErrorCode::Permission]
    );
    assert_eq!(*disabled.borrow(), vec![(10, 1)]);
    // the permission is looked up once
    assert_eq!(checks.get(), 1);

    let disabled = RefCell::new(Vec::new());
    let mut reply = MsgParcel::new();
    disable_task_notifications(&mut list(None, &["3"]), &mut reply, 10, owner, || ManagerPermission::ManagerUpload, action_of, |uid, id| disabled.borrow_mut().push((uid, id))).unwrap();
    assert_eq!(codes(reply), vec![ErrorCode::ErrOk]);
    assert_eq!(*disabled.borrow(), vec![(20, 3)]);
}

#[test]
fn creating_groups() {
    let made = RefCell::new(Vec::new());
    let create = |g: bool, t: Option<String>, x: Option<String>, w: Option<String>, d: bool, v: u32| {
        made.borrow_mut().push((g, t, x, w, d, v));
        42u32
    };
    let request = || {
        MsgParcel::from_values(vec![
            ParcelValue::Bool(true),
            ParcelValue::Bool(true),
            ParcelValue::Str("T".to_string()),
            ParcelValue::Bool(false),
            ParcelValue::Bool(false),
            ParcelValue::Bool(true),
            ParcelValue::U32(3),
        ])
    };
    let mut reply = MsgParcel::new();
    assert_eq!(create_group(&mut request(), &mut reply, true, true, &create), Ok(()));
    assert!(matches!(&reply.into_values()[..], [ParcelValue::Str(s)] if s == "42"));
    let mut reply = MsgParcel::new();
    create_group(&mut request(), &mut reply, false, true, &create).unwrap();
    assert_eq!(
        *made.borrow(),
        vec![(true, Some("T".to_string()), None, None, true, 3), (true, Some("T".to_string()), None, None, false, 3)]
    );
    let mut data = MsgParcel::from_values(vec![ParcelValue::Bool(true)]);
    let mut reply = MsgParcel::new();
    assert_eq!(create_group(&mut data, &mut reply, true, true, &create), Err(()));
    assert_eq!(reply.readable(), 0);
}
