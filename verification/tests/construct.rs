use std::cell::RefCell;

use request_services::config::{ConfigBuilder, Mode, TaskConfig};
use request_services::construct::construct;
use request_services::error::ErrorCode;
use request_services::notification_bar::notification_config::NotificationConfig;
use request_services::parcel::{serialize, MsgParcel, ParcelValue};

fn config(url: &str, mode: Mode) -> TaskConfig {
    let mut b = ConfigBuilder::new();
    b.url(url).mode(mode);
    b.build()
}

fn add_entry(p: &mut MsgParcel, c: &TaskConfig, disable: bool) {
    serialize(c, &Vec::new(), &Vec::new(), p);
    p.write_bool(true);
    p.write_string("custom title");
    p.write_bool(false);
    p.write_bool(false);
    p.write_bool(disable);
    p.write_u32(0);
}

fn answers(reply: MsgParcel) -> Vec<(ErrorCode, u32)> {
    let v = reply.into_values();
    assert!(matches!(v[0], ParcelValue::Code(ErrorCode::ErrOk)));
    v[1..]
        .chunks(2)
        .map(|pair| match (&pair[0], &pair[1]) {
            (ParcelValue::Code(c), ParcelValue::U32(t)) => (*c, *t),
            other => panic!("not an answer: {:?}", other),
        })
        .collect()
}

struct Log {
    sent: RefCell<Vec<String>>,
    customized: RefCell<Vec<(u32, Option<String>)>>,
    disabled: RefCell<Vec<(u64, u32)>>,
}

fn log() -> Log {
    Log { sent: RefCell::new(vec![]), customized: RefCell::new(vec![]), disabled: RefCell::new(vec![]) }
}

fn run(data: &mut MsgParcel, is_system_api: bool, notification_permission: bool, log: &Log) -> (Result<(), ()>, MsgParcel) {
    let mut reply = MsgParcel::new();
    let r = construct(
        data,
        &mut reply,
        "com.demo".to_string(),
        10,
        20,
        String::new(),
        false,
        true,
        is_system_api,
        notification_permission,
        |c: TaskConfig| {
            log.sent.borrow_mut().push(c.url.clone());
            if c.url.contains("refused") {
                (true, Some(Err(ErrorCode::FileOperationErr)))
            } else if c.url.contains("lost") {
                (false, None)
            } else {
                (true, Some(Ok(100 + log.sent.borrow().len() as u32)))
            }
        },
        |n: &NotificationConfig| log.customized.borrow_mut().push((n.task_id, n.title.clone())),
        |uid, id| log.disabled.borrow_mut().push((uid, id)),
        |id| if id == 103 { ErrorCode::ChannelNotOpen } else { ErrorCode::ErrOk },
    );
    (r, reply)
}

#[test]
fn tasks_are_created_in_order() {
    let mut data = MsgParcel::new();
    data.write_u32(4);
    add_entry(&mut data, &config("https://a", Mode::BackGround), false);
    add_entry(&mut data, &config("https://refused", Mode::BackGround), false);
    add_entry(&mut data, &config("https://c", Mode::BackGround), false);
    add_entry(&mut data, &config("https://lost", Mode::BackGround), false);
    let l = log();
    let (r, reply) = run(&mut data, false, false, &l);
    assert_eq!(r, Ok(()));
    assert_eq!(
        answers(reply),
        vec![(ErrorCode::ErrOk, 101), (ErrorCode::FileOperationErr, 0), (ErrorCode::ChannelNotOpen, 103), (ErrorCode::Other, 0)]
    );
    assert_eq!(
        *l.customized.borrow(),
        vec![(101, Some("custom title".to_string())), (103, Some("custom title".to_string()))]
    );
    assert!(l.disabled.borrow().is_empty());
    assert_eq!(data.readable(), 0);
}

#[test]
fn switching_notifications_off() {
    let mut data = MsgParcel::new();
    data.write_u32(2);
    add_entry(&mut data, &config("https://a", Mode::BackGround), true);
    add_entry(&mut data, &config("https://b", Mode::FrontEnd), true);
    // a system application with the permission
    let l = log();
    let (_, reply) = run(&mut data, true, true, &l);
    assert_eq!(answers(reply), vec![(ErrorCode::ErrOk, 101), (ErrorCode::ErrOk, 102)]);
    assert_eq!(*l.disabled.borrow(), vec![(10, 101)]);

    // without the permission the answer is Permission, with the new id
    let mut data = MsgParcel::new();
    data.write_u32(1);
    add_entry(&mut data, &config("https://a", Mode::BackGround), true);
    let l = log();
    let (_, reply) = run(&mut data, true, false, &l);
    assert_eq!(answers(reply), vec![(ErrorCode::Permission, 101)]);

    // an application that is not a system one is not heard
    let mut data = MsgParcel::new();
    data.write_u32(1);
    add_entry(&mut data, &config("https://a", Mode::BackGround), true);
    let l = log();
    let (_, reply) = run(&mut data, false, false, &l);
    assert_eq!(answers(reply), vec![(ErrorCode::ErrOk, 101)]);
    assert!(l.disabled.borrow().is_empty());
}

#[test]
fn unreadable_entries_are_parameter_errors() {
    let mut data = MsgParcel::from_values(vec![ParcelValue::U32(1), ParcelValue::Bool(true)]);
    let l = log();
    let (r, reply) = run(&mut data, false, false, &l);
    assert_eq!(r, Ok(()));
    assert_eq!(answers(reply), vec![(ErrorCode::ParameterCheck, 0)]);
    assert!(l.sent.borrow().is_empty());
}

#[test]
fn construct_refusals() {
    let mut data = MsgParcel::from_values(vec![ParcelValue::U32(101)]);
    let l = log();
    let (r, reply) = run(&mut data, false, false, &l);
    assert_eq!(r, Err(()));
    let v = reply.into_values();
    assert!(matches!(v[..], [ParcelValue::Code(ErrorCode::Other)]));

    let mut data = MsgParcel::from_values(vec![ParcelValue::U32(1)]);
    let mut reply = MsgParcel::new();
    let r = construct(
        &mut data,
        &mut reply,
        "b".to_string(),
        1,
        2,
        String::new(),
        false,
        false,
        false,
        false,
        |_c: TaskConfig| (true, None),
        |_n: &NotificationConfig| {},
        |_, _| {},
        |_| ErrorCode::ErrOk,
    );
    assert_eq!(r, Err(()));
    let v = reply.into_values();
    assert!(matches!(v[..], [ParcelValue::Code(ErrorCode::Permission)]));
}
