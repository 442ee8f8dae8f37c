use request_services::config::{
    Action, ConfigBuilder, FileSpec, Mode, NetworkConfig, NetworkInfo, NetworkState, NetworkType,
    TaskConfig, Version,
};
use request_services::info::State;
use request_services::reason::Reason;
use request_services::task::bundle::{get_name_and_index, AppInfo};
use request_services::task::client::{
    action_to_domain_type, client_settings, domain_check_passes, system_proxy_url,
    url_policy_answer, DomainInterceptor, RedirectPolicy,
};
use request_services::task_id_generator::TaskIdGenerator;
use request_services::sys_event::EventKind;
use std::cmp::Ordering;
use std::collections::HashSet;

#[test]
fn codes_convert_to_enums() {
    assert_eq!(Action::from(0u8), Action::Download);
    assert_eq!(Action::from(1u8), Action::Upload);
    assert_eq!(Action::from(9u8), Action::Any);
    assert_eq!(Mode::from(0u8), Mode::BackGround);
    assert_eq!(Mode::from(1u8), Mode::FrontEnd);
    assert_eq!(Mode::from(7u8), Mode::Any);
    assert_eq!(Version::from(1u8), Version::API9);
    assert_eq!(Version::from(2u8), Version::API10);
    assert_eq!(NetworkConfig::from(1u8), NetworkConfig::Wifi);
    assert_eq!(NetworkConfig::from(2u8), NetworkConfig::Cellular);
    assert_eq!(State::from(0x40u8), State::Completed);
    assert_eq!(State::from(0x41u8), State::Failed);
    assert_eq!(State::from(3u8), State::Any);
    assert_eq!(State::Running.repr(), 0x20);
    assert_eq!(Action::Upload.repr(), 1);
}

#[test]
fn modes_ordered_by_rank() {
    assert_eq!(Mode::FrontEnd.priority_cmp(&Mode::FrontEnd), Ordering::Equal);
    assert_ne!(Mode::FrontEnd.priority_cmp(&Mode::BackGround), Ordering::Equal);
    assert_eq!(
        Mode::FrontEnd.priority_cmp(&Mode::BackGround),
        Mode::BackGround.priority_cmp(&Mode::FrontEnd).reverse()
    );
}

#[test]
fn default_config_values() {
    let c = TaskConfig::default();
    assert_eq!(c.method, "GET");
    assert_eq!(c.bundle, "xxx");
    assert_eq!(c.version, Version::API10);
    assert_eq!(c.common_data.action, Action::Download);
    assert_eq!(c.common_data.mode, Mode::BackGround);
    assert_eq!(c.common_data.ends, -1);
    assert!(c.common_data.redirect);
    assert_eq!(c.atomic_account, "ohosAnonymousUid");
}

#[test]
fn builder_sets_fields() {
    let mut b = ConfigBuilder::new();
    b.url("https://example.com/a")
        .action(Action::Upload)
        .mode(Mode::FrontEnd)
        .uid(7)
        .version(1)
        .network(NetworkConfig::Wifi)
        .roaming(true)
        .metered(true)
        .redirect(false)
        .begins(5)
        .ends(9)
        .retry(true)
        .bundle_name("com.demo")
        .method("PUT")
        .file_spec(3);
    let c = b.build();
    assert_eq!(c.url, "https://example.com/a");
    assert_eq!(c.common_data.action, Action::Upload);
    assert_eq!(c.common_data.mode, Mode::FrontEnd);
    assert_eq!(c.common_data.uid, 7);
    assert_eq!(c.version, Version::API9);
    assert_eq!(c.common_data.network_config, NetworkConfig::Wifi);
    assert!(c.common_data.roaming && c.common_data.metered && c.common_data.retry);
    assert!(!c.common_data.redirect);
    assert_eq!((c.common_data.begins, c.common_data.ends), (5, 9));
    assert_eq!(c.bundle, "com.demo");
    assert_eq!(c.method, "PUT");
    assert_eq!(c.file_specs.len(), 1);
    assert!(c.file_specs[0].is_user_file);
    assert_eq!(c.file_specs[0].fd, Some(3));
    assert!(c.contains_user_file());
    assert!(!TaskConfig::default().contains_user_file());
}

#[test]
fn network_decides_if_task_runs() {
    let mut c = TaskConfig::default();
    let wifi = NetworkState::Online(NetworkInfo { network_type: NetworkType::Wifi, is_metered: false, is_roaming: false });
    let cell = NetworkState::Online(NetworkInfo { network_type: NetworkType::Cellular, is_metered: true, is_roaming: true });
    assert_eq!(c.satisfy_network(&NetworkState::Offline), Err(Reason::NetworkOffline));
    assert_eq!(c.satisfy_network(&cell), Ok(()));
    c.common_data.network_config = NetworkConfig::Wifi;
    assert_eq!(c.satisfy_network(&cell), Err(Reason::UnsupportedNetworkType));
    assert_eq!(c.satisfy_network(&wifi), Ok(()));
    c.common_data.network_config = NetworkConfig::Cellular;
    assert_eq!(c.satisfy_network(&cell), Err(Reason::UnsupportedNetworkType));
    c.common_data.roaming = true;
    assert_eq!(c.satisfy_network(&cell), Err(Reason::UnsupportedNetworkType));
    c.common_data.metered = true;
    assert_eq!(c.satisfy_network(&cell), Ok(()));
}

#[test]
fn foreground_tasks_need_their_app_in_front() {
    let mut c = TaskConfig::default();
    c.common_data.uid = 5;
    let mut front = HashSet::new();
    assert!(c.satisfy_foreground(&front));
    c.common_data.mode = Mode::FrontEnd;
    assert!(!c.satisfy_foreground(&front));
    front.insert(5u64);
    assert!(c.satisfy_foreground(&front));
}

#[test]
fn user_file_specs() {
    let f = FileSpec::user_file(4);
    assert_eq!(f.fd, Some(4));
    assert!(f.is_user_file);
    assert_eq!(f.path, "");
}

#[test]
fn client_settings_of_a_task() {
    let mut c = TaskConfig::default();
    c.common_data.uid = 20010042;
    c.common_data.min_speed.speed = 10;
    c.common_data.min_speed.duration = 30;
    let s = client_settings(&c, 3600);
    assert_eq!(s.connect_timeout, 60);
    assert_eq!(s.total_timeout, 3600);
    assert_eq!(s.sockets_owner, 20010042);
    assert_eq!(s.redirect, RedirectPolicy::Limited(usize::MAX));
    assert_eq!(s.min_speed, Some((10, 30)));
    assert_eq!(s.task_proxy, None);
    assert_eq!(s.certificate_pins, None);
    assert_eq!(s.domain_type, None);
    c.common_data.timeout.connection_timeout = 5;
    c.common_data.redirect = false;
    c.common_data.min_speed.duration = 0;
    c.proxy = "http://p:1".to_string();
    c.bundle_type = 1;
    c.common_data.action = Action::Upload;
    let s = client_settings(&c, 1);
    assert_eq!(s.connect_timeout, 5);
    assert_eq!(s.redirect, RedirectPolicy::NoRedirect);
    assert_eq!(s.min_speed, None);
    assert_eq!(s.task_proxy, Some("http://p:1".to_string()));
    assert_eq!(s.domain_type, Some("upload".to_string()));
}

#[test]
fn proxies_and_domain_policy() {
    assert_eq!(system_proxy_url("", "80"), None);
    assert_eq!(system_proxy_url("host", ""), Some("host".to_string()));
    assert_eq!(system_proxy_url("host", "80"), Some("host:80".to_string()));
    assert_eq!(url_policy_answer(0), Some(true));
    assert_eq!(url_policy_answer(1), Some(false));
    assert_eq!(url_policy_answer(2), None);
    assert!(domain_check_passes(None));
    assert!(domain_check_passes(Some(true)));
    assert!(!domain_check_passes(Some(false)));
    assert_eq!(action_to_domain_type(Action::Download), "download");
    assert_eq!(action_to_domain_type(Action::Any), "");
    let d = DomainInterceptor::new("app".to_string(), "download".to_string());
    assert_eq!((d.app_id.as_str(), d.domain_type.as_str()), ("app", "download"));
}

#[test]
fn apps_and_ids() {
    assert_eq!(
        get_name_and_index(AppInfo { ret: true, index: 2, name: "com.a".to_string() }),
        Some((2, "com.a".to_string()))
    );
    assert_eq!(get_name_and_index(AppInfo { ret: false, index: 2, name: "x".to_string() }), None);
    // ids are drawn at random: two draws in a row are rarely equal
    let draws: HashSet<u32> = (0..8).map(|_| TaskIdGenerator::generate()).collect();
    assert!(draws.len() > 1);
    assert_eq!(EventKind::TaskFault.as_str(), "TASK_FAULT");
    assert_eq!(EventKind::ExecError.as_str(), "EXEC_ERROR");
    assert_eq!(EventKind::ExecFault.as_str(), "EXEC_FAULT");
}
