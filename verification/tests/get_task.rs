use request_services::config::{Action, ConfigBuilder, TaskConfig};
use request_services::error::ErrorCode;
use request_services::get_task::{get_task, ListedConfig};
use request_services::parcel::{serialize_task_config, MsgParcel, ParcelValue};

fn config() -> TaskConfig {
    let mut b = ConfigBuilder::new();
    b.url("https://example.com/f").action(Action::Download).bundle_name("com.demo").begins(3).ends(8);
    let mut c = b.build();
    c.title = "t".to_string();
    c.body_file_paths = vec!["/b".to_string()];
    c.common_data.min_speed.speed = 5;
    c.common_data.min_speed.duration = 6;
    c
}

fn listed() -> ListedConfig {
    (config(), vec![("h".to_string(), "1".to_string())], vec![])
}

fn owner(id: u32) -> Option<u64> {
    if id == 1 {
        Some(10)
    } else {
        None
    }
}

fn request(id: &str, token: Option<&str>) -> MsgParcel {
    let mut v = vec![ParcelValue::Str(id.to_string())];
    if let Some(t) = token {
        v.push(ParcelValue::Str(t.to_string()));
    }
    MsgParcel::from_values(v)
}

#[test]
fn configuration_as_handed_back() {
    let mut p = MsgParcel::new();
    serialize_task_config(&config(), &vec![("h".to_string(), "1".to_string())], &vec![], &mut p);
    let v = p.into_values();
    // 17 settings, 5 texts, 1 header pair after its count, body and token,
    // no extras, the version, no forms or files, one body file, two speeds
    assert_eq!(v.len(), 17 + 5 + 3 + 2 + 1 + 1 + 1 + 1 + 2 + 2);
    assert!(matches!(v[10], ParcelValue::U64(3)));
    assert!(matches!(v[11], ParcelValue::I64(8)));
    assert!(matches!(&v[17], ParcelValue::Str(s) if s == "com.demo"));
    assert!(matches!(&v[18], ParcelValue::Str(s) if s == "https://example.com/f"));
    assert!(matches!(v[22], ParcelValue::U32(1)));
    assert!(matches!(&v[23], ParcelValue::Str(s) if s == "h"));
    assert!(matches!(v[v.len() - 2], ParcelValue::I64(5)));
    assert!(matches!(v[v.len() - 1], ParcelValue::I64(6)));
}

#[test]
fn owner_gets_the_configuration() {
    let mut data = request("1", Some("tok"));
    let mut reply = MsgParcel::new();
    let r = get_task(&mut data, &mut reply, 10, owner, |id, token| {
        if id == 1 && token == "tok" {
            Some(listed())
        } else {
            None
        }
    }, |_| ErrorCode::ErrOk);
    assert_eq!(r, Ok(()));
    let v = reply.into_values();
    assert!(matches!(v[0], ParcelValue::Code(ErrorCode::ErrOk)));
    assert_eq!(v.len(), 1 + 35);
}

#[test]
fn failed_subscription_is_reported_with_the_configuration() {
    let mut data = request("1", Some("tok"));
    let mut reply = MsgParcel::new();
    let r = get_task(&mut data, &mut reply, 10, owner, |_, _| Some(listed()), |_| ErrorCode::ChannelNotOpen);
    assert_eq!(r, Ok(()));
    let v = reply.into_values();
    assert!(matches!(v[0], ParcelValue::Code(ErrorCode::ChannelNotOpen)));
    assert_eq!(v.len(), 36);
}

#[test]
fn others_and_unknown_tasks_are_not_found() {
    for (id, caller, token) in [("x", 10, Some("tok")), ("2", 10, Some("tok")), ("1", 11, Some("tok")), ("1", 10, Some("bad"))] {
        let mut data = request(id, token);
        let mut reply = MsgParcel::new();
        let r = get_task(&mut data, &mut reply, caller, owner, |_, t| if t == "tok" { Some(listed()) } else { None }, |_| ErrorCode::ErrOk);
        assert_eq!(r, Err(()));
        let v = reply.into_values();
        assert_eq!(v.len(), 1);
        assert!(matches!(v[0], ParcelValue::Code(ErrorCode::TaskNotFound)));
    }
    // a missing token fails with no answer
    let mut data = request("1", None);
    let mut reply = MsgParcel::new();
    let r = get_task(&mut data, &mut reply, 10, owner, |_, _| Some(listed()), |_| ErrorCode::ErrOk);
    assert_eq!(r, Err(()));
    assert_eq!(reply.readable(), 0);
}

use request_services::get_task::query_mime_type;

#[test]
fn mime_types_for_owners() {
    let mime = |uid: u64, id: u32| format!("text/plain;{};{}", uid, id);
    let ask = |id: &str, caller: u64, internet: bool| {
        let mut data = MsgParcel::from_values(vec![ParcelValue::Str(id.to_string())]);
        let mut reply = MsgParcel::new();
        let r = query_mime_type(&mut data, &mut reply, caller, false, internet, owner, &mime);
        (r, reply.into_values())
    };
    let (r, v) = ask("1", 10, true);
    assert_eq!(r, Ok(()));
    assert!(matches!(&v[..], [ParcelValue::Code(ErrorCode::ErrOk), ParcelValue::Str(s)] if s == "text/plain;10;1"));
    let (r, v) = ask("1", 10, false);
    assert_eq!(r, Err(()));
    assert!(matches!(&v[..], [ParcelValue::Code(ErrorCode::Permission)]));
    for (id, caller) in [("z", 10), ("2", 10), ("1", 11)] {
        let (r, v) = ask(id, caller, true);
        assert_eq!(r, Err(()));
        assert!(matches!(&v[..], [ParcelValue::Code(ErrorCode::TaskNotFound)]));
    }
}
