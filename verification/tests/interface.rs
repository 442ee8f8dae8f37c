use request_services::interface::{accepted_command, service_token};
use request_services::interface::{
    command_for_code, Command, ATTACH_GROUP, CLEAR, CONSTRUCT, CREATE_GROUP, DELETE_GROUP,
    DISABLE_TASK_NOTIFICATION, GET_TASK, NOTIFY_RUN_COUNT, OPEN_CHANNEL, PAUSE, QUERY,
    QUERY_MIME_TYPE, REMOVE, RESUME, SEARCH, SET_MAX_SPEED, SET_MODE, SHOW, SHOW_PROGRESS, START,
    STOP, SUBSCRIBE, SUB_RUN_COUNT, TOUCH, UNSUBSCRIBE, UNSUB_RUN_COUNT,
};

#[test]
fn ut_interface() {
    assert_eq!(0, CONSTRUCT);
    assert_eq!(1, PAUSE);
    assert_eq!(2, QUERY);
    assert_eq!(3, QUERY_MIME_TYPE);
    assert_eq!(4, REMOVE);
    assert_eq!(5, RESUME);
    assert_eq!(6, START);
    assert_eq!(7, STOP);
    assert_eq!(8, SHOW);
    assert_eq!(9, TOUCH);
    assert_eq!(10, SEARCH);
    assert_eq!(11, GET_TASK);
    assert_eq!(12, CLEAR);
    assert_eq!(13, OPEN_CHANNEL);
    assert_eq!(14, SUBSCRIBE);
    assert_eq!(15, UNSUBSCRIBE);
    assert_eq!(16, SUB_RUN_COUNT);
    assert_eq!(17, UNSUB_RUN_COUNT);
    assert_eq!(18, CREATE_GROUP);
    assert_eq!(19, ATTACH_GROUP);
    assert_eq!(20, DELETE_GROUP);
    assert_eq!(100, SET_MODE);
    assert_eq!(101, DISABLE_TASK_NOTIFICATION);
}

#[test]
fn interface_other_codes() {
    assert_eq!(21, SET_MAX_SPEED);
    assert_eq!(22, SHOW_PROGRESS);
    assert_eq!(2, NOTIFY_RUN_COUNT);
}

#[test]
fn command_codes_dispatch() {
    assert_eq!(command_for_code(CONSTRUCT), Some(Command::Construct));
    assert_eq!(command_for_code(SET_MAX_SPEED), Some(Command::SetMaxSpeed));
    assert_eq!(command_for_code(DISABLE_TASK_NOTIFICATION), Some(Command::DisableTaskNotification));
    assert_eq!(command_for_code(SHOW_PROGRESS), None);
    assert_eq!(command_for_code(99), None);
}

#[test]
fn requests_need_the_service_token() {
    assert_eq!(service_token(), "OHOS.Download.RequestServiceInterface");
    assert_eq!(accepted_command("OHOS.Download.RequestServiceInterface", 1), Some(Command::Pause));
    assert_eq!(accepted_command("OHOS.Download.RequestServiceInterface", 22), None);
    assert_eq!(accepted_command("OHOS.Download.Other", 1), None);
    assert_eq!(accepted_command("", 0), None);
}
