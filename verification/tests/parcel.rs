use request_services::config::{Action, ConfigBuilder, FormItem, Mode, TaskConfig};
use request_services::parcel::{deserialize, serialize, MsgParcel, ParcelValue};

fn sample_config() -> TaskConfig {
    let mut b = ConfigBuilder::new();
    b.url("https://example.com/upload")
        .action(Action::Upload)
        .mode(Mode::FrontEnd)
        .version(1)
        .begins(5)
        .ends(9)
        .retry(true)
        .method("PUT")
        .file_spec(3);
    let mut c = b.build();
    c.title = "title".to_string();
    c.description = "about".to_string();
    c.data = "body".to_string();
    c.token = "tok".to_string();
    c.certs_path = vec!["/etc/cert.pem".to_string()];
    c.body_file_paths = vec!["/data/a".to_string(), "/data/b".to_string()];
    c.form_items = vec![FormItem { name: "n".to_string(), value: "v".to_string() }];
    c.common_data.priority = 4;
    c.common_data.index = 0;
    c.common_data.min_speed.speed = 10;
    c.common_data.min_speed.duration = 20;
    c.common_data.timeout.connection_timeout = 30;
    c.common_data.timeout.total_timeout = 40;
    c
}

fn pairs(v: &[(&str, &str)]) -> Vec<(String, String)> {
    v.iter().map(|(a, b)| (a.to_string(), b.to_string())).collect()
}

#[test]
fn config_survives_a_message() {
    let c = sample_config();
    let mut p = MsgParcel::new();
    serialize(
        &c,
        &pairs(&[("Content-Type", "text/plain")]),
        &pairs(&[("k", "v"), ("k", "w")]),
        &mut p,
    );
    let r = deserialize(&mut p, "com.demo".to_string(), 7, 9, "acc".to_string()).unwrap();
    assert_eq!(p.readable(), 0);
    assert_eq!(r.bundle, "com.demo");
    assert_eq!(r.common_data.uid, 7);
    assert_eq!(r.common_data.token_id, 9);
    assert_eq!(r.common_data.task_id, 0);
    assert_eq!(r.atomic_account, "");
    assert_eq!(r.url, c.url);
    assert_eq!(r.title, "title");
    assert_eq!(r.description, "about");
    assert_eq!(r.data, "body");
    assert_eq!(r.token, "tok");
    assert_eq!(r.method, "PUT");
    assert_eq!(r.version, c.version);
    assert_eq!(r.common_data.action, Action::Upload);
    assert_eq!(r.common_data.mode, Mode::FrontEnd);
    assert_eq!((r.common_data.begins, r.common_data.ends), (5, 9));
    assert!(r.common_data.retry);
    assert_eq!(r.common_data.priority, 4);
    assert_eq!((r.common_data.min_speed.speed, r.common_data.min_speed.duration), (10, 20));
    assert_eq!(r.common_data.timeout.connection_timeout, 30);
    assert_eq!(r.common_data.timeout.total_timeout, 40);
    assert_eq!(r.certs_path, vec!["/etc/cert.pem".to_string()]);
    assert_eq!(r.body_file_paths, vec!["/data/a".to_string(), "/data/b".to_string()]);
    assert_eq!(r.form_items.len(), 1);
    assert_eq!((r.form_items[0].name.as_str(), r.form_items[0].value.as_str()), ("n", "v"));
    assert_eq!(r.file_specs.len(), 1);
    assert!(r.file_specs[0].is_user_file);
    assert_eq!(r.file_specs[0].fd, Some(3));
    assert_eq!(r.headers.len(), 1);
    assert_eq!(r.headers.get("Content-Type").map(|s| s.as_str()), Some("text/plain"));
    assert_eq!(r.extras.len(), 1);
    assert_eq!(r.extras.get("k").map(|s| s.as_str()), Some("w"));
}

#[test]
fn atomic_service_carries_the_account() {
    let mut c = sample_config();
    c.bundle_type = 1;
    let mut p = MsgParcel::new();
    serialize(&c, &Vec::new(), &Vec::new(), &mut p);
    let r = deserialize(&mut p, "b".to_string(), 1, 2, "acc".to_string()).unwrap();
    assert_eq!(r.bundle_type, 1);
    assert_eq!(r.atomic_account, "acc");
}

#[test]
fn values_after_a_config_stay_to_be_read() {
    let c = sample_config();
    let mut p = MsgParcel::new();
    serialize(&c, &Vec::new(), &Vec::new(), &mut p);
    p.write_u32(42);
    assert!(deserialize(&mut p, "b".to_string(), 1, 2, String::new()).is_some());
    assert_eq!(p.readable(), 1);
    assert_eq!(p.read_u32(), Some(42));
}

#[test]
fn empty_message_holds_no_config() {
    let mut p = MsgParcel::new();
    assert!(deserialize(&mut p, "b".to_string(), 1, 2, String::new()).is_none());
}

#[test]
fn value_of_another_type_is_refused() {
    let mut p = MsgParcel::from_values(vec![ParcelValue::Bool(true)]);
    assert!(deserialize(&mut p, "b".to_string(), 1, 2, String::new()).is_none());
    assert_eq!(p.read_u32(), None);
    assert_eq!(p.readable(), 1);
    assert_eq!(p.read_bool(), Some(true));
    assert_eq!(p.readable(), 0);
}

#[test]
fn count_beyond_the_message_is_refused() {
    let c = sample_config();
    let mut p = MsgParcel::new();
    serialize(&c, &Vec::new(), &Vec::new(), &mut p);
    let mut values = p.into_values();
    // the count of certificate paths follows the thirty values of the head
    assert!(matches!(values[30], ParcelValue::U32(1)));
    values[30] = ParcelValue::U32(1000);
    let mut q = MsgParcel::from_values(values);
    assert!(deserialize(&mut q, "b".to_string(), 1, 2, String::new()).is_none());
}

#[test]
fn negative_descriptor_is_refused() {
    let mut c = sample_config();
    c.file_specs[0].fd = Some(-1);
    let mut p = MsgParcel::new();
    serialize(&c, &Vec::new(), &Vec::new(), &mut p);
    assert!(deserialize(&mut p, "b".to_string(), 1, 2, String::new()).is_none());
}

#[test]
fn message_reads_in_written_order() {
    let mut p = MsgParcel::new();
    p.write_u32(1);
    p.write_bool(false);
    p.write_i64(-3);
    p.write_u64(4);
    p.write_string("five");
    p.write_fd(6);
    assert_eq!(p.readable(), 6);
    assert_eq!(p.read_u32(), Some(1));
    assert_eq!(p.read_bool(), Some(false));
    assert_eq!(p.read_i64(), Some(-3));
    assert_eq!(p.read_u64(), Some(4));
    assert_eq!(p.read_string(), Some("five".to_string()));
    assert_eq!(p.read_fd(), Some(6));
    assert_eq!(p.read_u32(), None);
}

use request_services::notification_bar::notification_config::NotificationConfig;

#[test]
fn notification_settings_from_a_message() {
    let mut p = MsgParcel::from_values(vec![
        ParcelValue::Bool(true),
        ParcelValue::Str("Title".to_string()),
        ParcelValue::Bool(false),
        ParcelValue::Bool(true),
        ParcelValue::Str("agent".to_string()),
        ParcelValue::Bool(true),
        ParcelValue::U32(3),
        ParcelValue::U32(77),
    ]);
    let c = NotificationConfig::deserialize(&mut p).unwrap();
    assert_eq!(c.task_id, 0);
    assert_eq!(c.title.as_deref(), Some("Title"));
    assert_eq!(c.text, None);
    assert_eq!(c.want_agent.as_deref(), Some("agent"));
    assert!(c.disable);
    assert_eq!(c.visibility, 3);
    assert_eq!(p.read_u32(), Some(77));
}

#[test]
fn incomplete_notification_settings_are_refused() {
    // the flag promises a title that is not there
    let mut p = MsgParcel::from_values(vec![ParcelValue::Bool(true), ParcelValue::Bool(false)]);
    assert!(NotificationConfig::deserialize(&mut p).is_none());
    // no visibility mask
    let mut p = MsgParcel::from_values(vec![
        ParcelValue::Bool(false),
        ParcelValue::Bool(false),
        ParcelValue::Bool(false),
        ParcelValue::Bool(true),
    ]);
    assert!(NotificationConfig::deserialize(&mut p).is_none());
}
