use request_services::command::{
    access_verdict, attach_request, batch_within, delete_group_answer, group_disable,
    manager_answer, max_speed_precheck, may_pause, may_remove, may_start, mode_change_needed,
    notification_disable_check, notification_switch, set_code_with_index,
    set_code_with_index_other, speed_limit_owner, speed_limit_valid, start_batch,
    NotificationSwitch, CONTROL_MAX, MIN_SPEED_LIMIT,
};
use request_services::config::{Action, Mode, Version};
use request_services::dump::{
    dump_header, dump_request, dump_row, help_message, immediate_answer, invalid_task_line,
    task_count_line, DumpRequest,
};
use request_services::error::ErrorCode;
use request_services::permission::{permission_or_owner, ManagerPermission};

fn args(a: &[&str]) -> Vec<String> {
    a.iter().map(|s| s.to_string()).collect()
}

#[test]
fn batch_answers() {
    let mut v = start_batch(3, CONTROL_MAX).unwrap();
    assert_eq!(v, vec![ErrorCode::Other; 3]);
    assert_eq!(start_batch(CONTROL_MAX + 1, CONTROL_MAX), None);
    set_code_with_index(&mut v, 1, ErrorCode::ErrOk);
    set_code_with_index(&mut v, 9, ErrorCode::ErrOk);
    assert_eq!(v, vec![ErrorCode::Other, ErrorCode::ErrOk, ErrorCode::Other]);
    let mut w = vec![(ErrorCode::Other, 5u32), (ErrorCode::Other, 6u32)];
    set_code_with_index_other(&mut w, 0, ErrorCode::TaskNotFound);
    assert_eq!(w, vec![(ErrorCode::TaskNotFound, 5), (ErrorCode::Other, 6)]);
    assert!(batch_within(500, CONTROL_MAX));
    assert!(!batch_within(501, CONTROL_MAX));
}

#[test]
fn caller_checks() {
    assert_eq!(access_verdict(None, true, 1, true), Err(ErrorCode::TaskNotFound));
    assert_eq!(access_verdict(Some(2), false, 2, true), Err(ErrorCode::TaskNotFound));
    assert_eq!(access_verdict(Some(2), true, 1, false), Err(ErrorCode::TaskNotFound));
    assert_eq!(access_verdict(Some(2), true, 1, true), Ok(2));
    assert_eq!(access_verdict(Some(1), true, 1, false), Ok(1));
    assert_eq!(manager_answer(false, Some(ErrorCode::ErrOk)), ErrorCode::Other);
    assert_eq!(manager_answer(true, None), ErrorCode::Other);
    assert_eq!(manager_answer(true, Some(ErrorCode::TaskStateErr)), ErrorCode::TaskStateErr);
    assert!(may_start(false, true));
    assert!(!may_start(false, false));
    assert!(!may_pause(Version::API9, false));
    assert!(may_pause(Version::API10, false));
    assert!(may_remove(Version::API9, false, true));
    assert!(!may_remove(Version::API9, false, false));
    assert!(permission_or_owner(ManagerPermission::ManagerUpload, false));
    assert!(!permission_or_owner(ManagerPermission::NoPermission, false));
    assert!(permission_or_owner(ManagerPermission::NoPermission, true));
}

#[test]
fn speed_limit_checks() {
    assert_eq!(MIN_SPEED_LIMIT, 16 * 1024);
    assert!(speed_limit_valid(16384));
    assert!(!speed_limit_valid(16383));
    assert_eq!(max_speed_precheck("12", 100), Err(ErrorCode::ParameterCheck));
    assert_eq!(max_speed_precheck("x", 100), Err(ErrorCode::ParameterCheck));
    assert_eq!(max_speed_precheck("x", 20000), Err(ErrorCode::TaskNotFound));
    assert_eq!(max_speed_precheck("12", 20000), Ok(12));
    assert_eq!(speed_limit_owner(true, Some(4), 1), Ok(4));
    assert_eq!(speed_limit_owner(true, None, 1), Err(ErrorCode::TaskNotFound));
    assert_eq!(speed_limit_owner(false, Some(1), 1), Ok(1));
    assert_eq!(speed_limit_owner(false, Some(4), 1), Err(ErrorCode::TaskNotFound));
}

#[test]
fn mode_and_notification_switches() {
    assert!(!mode_change_needed(Mode::FrontEnd, Mode::FrontEnd));
    assert!(!mode_change_needed(Mode::FrontEnd, Mode::Any));
    assert!(mode_change_needed(Mode::FrontEnd, Mode::BackGround));
    assert_eq!(notification_switch(false, true, true, Mode::BackGround), NotificationSwitch::Keep);
    assert_eq!(notification_switch(true, false, true, Mode::BackGround), NotificationSwitch::Keep);
    assert_eq!(notification_switch(true, true, false, Mode::BackGround), NotificationSwitch::Refuse);
    assert_eq!(notification_switch(true, true, true, Mode::BackGround), NotificationSwitch::Disable);
    assert_eq!(notification_switch(true, true, true, Mode::FrontEnd), NotificationSwitch::Keep);
    assert!(group_disable(true, true, true));
    assert!(!group_disable(true, false, true));
    assert_eq!(delete_group_answer(true), ErrorCode::ErrOk);
    assert_eq!(delete_group_answer(false), ErrorCode::GroupNotFound);
}

#[test]
fn attach_requests() {
    let ids = args(&["1", "2"]);
    assert_eq!(attach_request("g", &ids, |_| true), Err(ErrorCode::GroupNotFound));
    assert_eq!(attach_request("9", &ids, |_| true), Ok((9, vec![1, 2])));
    assert_eq!(attach_request("9", &ids, |id| id != 2), Err(ErrorCode::TaskNotFound));
    assert_eq!(attach_request("9", &args(&["1", "x"]), |_| true), Err(ErrorCode::TaskNotFound));
    assert_eq!(attach_request("9", &args(&[]), |_| false), Ok((9, vec![])));
}

#[test]
fn disabling_notifications_of_others() {
    assert_eq!(notification_disable_check(true, ManagerPermission::NoPermission, None), Ok(()));
    assert_eq!(notification_disable_check(false, ManagerPermission::ManagerAll, None), Ok(()));
    assert_eq!(
        notification_disable_check(false, ManagerPermission::NoPermission, Some(Action::Download)),
        Err(ErrorCode::Permission)
    );
    assert_eq!(
        notification_disable_check(false, ManagerPermission::ManagerDownLoad, None),
        Err(ErrorCode::TaskNotFound)
    );
    assert_eq!(
        notification_disable_check(false, ManagerPermission::ManagerDownLoad, Some(Action::Upload)),
        Err(ErrorCode::Permission)
    );
    assert_eq!(
        notification_disable_check(false, ManagerPermission::ManagerUpload, Some(Action::Upload)),
        Ok(())
    );
}

#[test]
fn dump_arguments() {
    assert_eq!(dump_request(&args(&[])), DumpRequest::Help);
    assert_eq!(dump_request(&args(&["-h", "x"])), DumpRequest::Help);
    assert_eq!(dump_request(&args(&["-x"])), DumpRequest::InvalidArgs);
    assert_eq!(dump_request(&args(&["-t"])), DumpRequest::All);
    assert_eq!(dump_request(&args(&["-t", "42"])), DumpRequest::One(42));
    assert_eq!(dump_request(&args(&["-t", "a"])), DumpRequest::NotANumber);
    assert_eq!(dump_request(&args(&["-t", "1", "2"])), DumpRequest::TooManyArgs);
    assert_eq!(immediate_answer(DumpRequest::InvalidArgs), Some("invalid args"));
    assert_eq!(immediate_answer(DumpRequest::NotANumber), Some("-t accept a number"));
    assert_eq!(
        immediate_answer(DumpRequest::TooManyArgs),
        Some("too many args, -t accept no arg or one arg")
    );
    assert_eq!(immediate_answer(DumpRequest::Help), Some(help_message()));
    assert!(help_message().starts_with("usage:\n-h"));
    assert_eq!(immediate_answer(DumpRequest::All), None);
}

#[test]
fn dump_tables() {
    assert_eq!(
        dump_header(),
        format!("{:<20}{:<12}{:<12}{:<12}\n", "id", "action", "state", "reason")
    );
    assert_eq!(dump_row(123, 0, 32, 0), format!("{:<20}{:<12}{:<12}{:<12}\n", 123, 0, 32, 0));
    assert_eq!(task_count_line(3), "task num: 3\n");
    assert_eq!(invalid_task_line(9), "invalid task id 9");
}
