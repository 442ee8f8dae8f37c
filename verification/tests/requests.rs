use std::cell::RefCell;

use request_services::error::ErrorCode;
use request_services::parcel::{MsgParcel, ParcelValue};
use request_services::search::{search, SearchMethod, TaskFilter};
use request_services::subscribe::{open_channel, subscribe, unsubscribe_run_count};

fn search_request() -> MsgParcel {
    MsgParcel::from_values(vec![
        ParcelValue::Str("com.demo".to_string()),
        ParcelValue::I64(200),
        ParcelValue::I64(100),
        ParcelValue::U32(0x140),
        ParcelValue::U32(1),
        ParcelValue::U32(2),
    ])
}

#[test]
fn search_by_bundle_or_by_user() {
    let seen = RefCell::new(Vec::new());
    let find = |f: TaskFilter, m: SearchMethod| {
        seen.borrow_mut().push((f, format!("{:?}", m)));
        vec![7u32, 1234567890]
    };
    let mut reply = MsgParcel::new();
    assert_eq!(search(&mut search_request(), &mut reply, true, 10, &find), Ok(()));
    let v = reply.into_values();
    assert!(matches!(v[0], ParcelValue::U32(2)));
    assert!(matches!(&v[1], ParcelValue::Str(s) if s == "7"));
    assert!(matches!(&v[2], ParcelValue::Str(s) if s == "1234567890"));
    // the state code is cut to its low byte
    assert_eq!(
        seen.borrow()[0].0,
        TaskFilter { before: 200, after: 100, state: 0x40, action: 1, mode: 2 }
    );
    assert_eq!(seen.borrow()[0].1, "System(\"com.demo\")");

    let mut reply = MsgParcel::new();
    assert_eq!(search(&mut search_request(), &mut reply, false, 10, &find), Ok(()));
    assert_eq!(seen.borrow()[1].1, "User(10)");
}

#[test]
fn incomplete_search_fails() {
    let mut data = MsgParcel::from_values(vec![ParcelValue::Str("b".to_string()), ParcelValue::I64(1)]);
    let mut reply = MsgParcel::new();
    assert_eq!(search(&mut data, &mut reply, false, 10, |_, _| vec![1]), Err(()));
    assert_eq!(reply.readable(), 0);
}

fn owner(id: u32) -> Option<u64> {
    if id == 1 {
        Some(10)
    } else {
        None
    }
}

fn subscribe_to(id: &str, caller: u64, answer: (bool, Option<ErrorCode>), registered: ErrorCode) -> (Result<(), ()>, Vec<ErrorCode>) {
    let mut data = MsgParcel::from_values(vec![ParcelValue::Str(id.to_string())]);
    let mut reply = MsgParcel::new();
    let r = subscribe(&mut data, &mut reply, caller, owner, |_| answer, |_| registered);
    let codes = reply
        .into_values()
        .into_iter()
        .map(|v| match v {
            ParcelValue::Code(c) => c,
            other => panic!("not a code: {:?}", other),
        })
        .collect();
    (r, codes)
}

#[test]
fn subscriptions() {
    let ok = (true, Some(ErrorCode::ErrOk));
    assert_eq!(subscribe_to("1", 10, ok, ErrorCode::ErrOk), (Ok(()), vec![ErrorCode::ErrOk]));
    assert_eq!(subscribe_to("q", 10, ok, ErrorCode::ErrOk), (Err(()), vec![ErrorCode::TaskNotFound]));
    assert_eq!(subscribe_to("1", 11, ok, ErrorCode::ErrOk), (Err(()), vec![ErrorCode::TaskNotFound]));
    assert_eq!(subscribe_to("2", 10, ok, ErrorCode::ErrOk), (Err(()), vec![ErrorCode::TaskNotFound]));
    assert_eq!(subscribe_to("1", 10, (false, None), ErrorCode::ErrOk), (Err(()), vec![ErrorCode::Other]));
    assert_eq!(subscribe_to("1", 10, (true, None), ErrorCode::ErrOk), (Err(()), vec![ErrorCode::Other]));
    assert_eq!(
        subscribe_to("1", 10, (true, Some(ErrorCode::TaskStateErr)), ErrorCode::ErrOk),
        (Err(()), vec![ErrorCode::TaskStateErr])
    );
    assert_eq!(
        subscribe_to("1", 10, ok, ErrorCode::ChannelNotOpen),
        (Err(()), vec![ErrorCode::ChannelNotOpen])
    );
}

#[test]
fn opening_channels() {
    let mut reply = MsgParcel::new();
    assert_eq!(open_channel(&mut reply, || Some(7)), Ok(()));
    assert!(matches!(reply.into_values()[..], [ParcelValue::Code(ErrorCode::ErrOk), ParcelValue::Fd(7)]));
    let mut reply = MsgParcel::new();
    assert_eq!(open_channel(&mut reply, || None), Err(()));
    assert!(matches!(reply.into_values()[..], [ParcelValue::Code(ErrorCode::ParameterCheck)]));
}

#[test]
fn ending_run_count_subscriptions() {
    let mut reply = MsgParcel::new();
    assert_eq!(unsubscribe_run_count(&mut reply, true, || ErrorCode::ErrOk), Err(()));
    assert_eq!(reply.readable(), 0);
    let mut reply = MsgParcel::new();
    assert_eq!(unsubscribe_run_count(&mut reply, false, || ErrorCode::ErrOk), Ok(()));
    assert!(matches!(reply.into_values()[..], [ParcelValue::Code(ErrorCode::ErrOk)]));
    let mut reply = MsgParcel::new();
    assert_eq!(unsubscribe_run_count(&mut reply, false, || ErrorCode::Other), Err(()));
    assert!(matches!(reply.into_values()[..], [ParcelValue::Code(ErrorCode::Other)]));
}
