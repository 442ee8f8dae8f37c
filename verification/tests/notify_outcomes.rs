use request_services::config::{Action, Mode, Version};
use request_services::error::ErrorCode;
use request_services::info::State;
use request_services::notification_bar::database::{
    completion_visible, expiry_cutoff, group_flag, notification_available, progress_visible,
};
use request_services::notification_bar::notify_flow::{
    attach_group_outcome, group_completed_outcome, group_eventual_outcome, group_progress_outcome,
    task_completed_outcome, task_progress_outcome, unregister_outcome, EventualNotify, FlowOutcome,
    GroupProgress, ProgressNotify,
};
use request_services::notification_bar::publish::{
    group_change, group_has_custom_content, progress_notify_of, register_gauge, unregister_plan,
    GroupChange, UnregisterPlan,
};
use request_services::notification_bar::task_handle::{
    attach_group_answer, attach_group_check, background_of, mode_from_read,
    notification_check_common, AttachCandidate,
};
use request_services::notification_bar::typology::{
    CustomizedNotification, NotifyContent, ProgressCircle, SystemTexts,
};
use request_services::permission::ManagerPermission;

fn texts() -> SystemTexts {
    SystemTexts {
        language: "en".to_string(),
        download_file: "Downloading %s".to_string(),
        download_success: "Download complete".to_string(),
        download_fail: "Download failed".to_string(),
        upload_file: "Uploading %s".to_string(),
        upload_success: "Upload complete".to_string(),
        upload_fail: "Upload failed".to_string(),
        task_count: "%d succeeded, %d failed".to_string(),
        download_complete: "Downloaded %s".to_string(),
    }
}

fn published(o: FlowOutcome) -> NotifyContent {
    match o {
        FlowOutcome::Publish(c) => c,
        other => panic!("expected a notification, got {:?}", other),
    }
}

fn closed() -> ProgressCircle {
    ProgressCircle { open: false, current: 0, total: 0 }
}

fn finished(task_id: u32, is_successful: bool) -> EventualNotify {
    EventualNotify {
        action: Action::Download,
        task_id,
        uid: 100,
        processed: 100,
        file_name: "a.txt".to_string(),
        is_successful,
    }
}

fn running(version: Version) -> ProgressNotify {
    ProgressNotify {
        action: Action::Download,
        task_id: 5,
        uid: 100,
        processed: 50,
        total: Some(200),
        multi_upload: None,
        file_name: "a.txt".to_string(),
        version,
    }
}

#[test]
fn tasks_qualifying_for_notifications() {
    assert!(notification_check_common(Version::API10, true, Mode::BackGround, false, false));
    assert!(notification_check_common(Version::API10, false, Mode::BackGround, false, true));
    assert!(!notification_check_common(Version::API10, false, Mode::BackGround, true, false));
    assert!(!notification_check_common(Version::API10, true, Mode::FrontEnd, true, true));
    assert!(notification_check_common(Version::API9, false, Mode::FrontEnd, true, false));
    assert!(!notification_check_common(Version::API9, true, Mode::BackGround, false, true));
}

#[test]
fn tasks_joining_a_group() {
    let ok = AttachCandidate { mode: Some(Mode::BackGround), state: Some(State::Initialized.repr()) };
    let front = AttachCandidate { mode: Some(Mode::FrontEnd), state: Some(State::Initialized.repr()) };
    let started = AttachCandidate { mode: Some(Mode::BackGround), state: Some(State::Running.repr()) };
    let missing = AttachCandidate { mode: None, state: None };
    assert_eq!(attach_group_check(&vec![]), Ok(()));
    assert_eq!(attach_group_check(&vec![ok, ok]), Ok(()));
    assert_eq!(attach_group_check(&vec![ok, front, missing]), Err(ErrorCode::TaskModeErr));
    assert_eq!(attach_group_check(&vec![ok, started]), Err(ErrorCode::TaskStateErr));
    assert_eq!(attach_group_check(&vec![missing, front]), Err(ErrorCode::TaskNotFound));
    assert_eq!(attach_group_answer(Ok(()), true), ErrorCode::ErrOk);
    assert_eq!(attach_group_answer(Ok(()), false), ErrorCode::GroupNotFound);
    assert_eq!(attach_group_answer(Err(ErrorCode::TaskStateErr), true), ErrorCode::TaskStateErr);
}

#[test]
fn flags_read_from_records() {
    assert!(background_of(Some(1)));
    assert!(!background_of(Some(0)));
    assert!(!background_of(Some(2)));
    assert!(!background_of(None));
    assert_eq!(mode_from_read(Some(0)), Some(Mode::BackGround));
    assert_eq!(mode_from_read(Some(1)), Some(Mode::FrontEnd));
    assert_eq!(mode_from_read(Some(7)), Some(Mode::Any));
    assert_eq!(mode_from_read(None), None);
}

#[test]
fn manager_permissions() {
    assert_eq!(ManagerPermission::from_grants(true, true), ManagerPermission::ManagerAll);
    assert_eq!(ManagerPermission::from_grants(true, false), ManagerPermission::ManagerDownLoad);
    assert_eq!(ManagerPermission::from_grants(false, true), ManagerPermission::ManagerUpload);
    assert_eq!(ManagerPermission::from_grants(false, false), ManagerPermission::NoPermission);
    assert!(ManagerPermission::check_action(Action::Download, Action::Download));
    assert!(ManagerPermission::check_action(Action::Any, Action::Upload));
    assert!(!ManagerPermission::check_action(Action::Upload, Action::Download));
}

#[test]
fn visibility_from_records() {
    assert!(!completion_visible(Err(())));
    assert!(completion_visible(Ok(None)));
    assert!(completion_visible(Ok(Some(0))));
    assert!(completion_visible(Ok(Some(1))));
    assert!(completion_visible(Ok(Some(3))));
    assert!(!completion_visible(Ok(Some(2))));
    assert!(!progress_visible(Err(()), true));
    assert!(progress_visible(Ok(None), true));
    assert!(!progress_visible(Ok(None), false));
    assert!(!progress_visible(Ok(Some(0)), false));
    assert!(progress_visible(Ok(Some(2)), false));
    assert!(!progress_visible(Ok(Some(1)), true));
    assert!(notification_available(Err(())));
    assert!(notification_available(Ok(None)));
    assert!(!notification_available(Ok(Some(false))));
    assert!(!group_flag(Err(())));
    assert!(!group_flag(Ok(None)));
    assert!(group_flag(Ok(Some(true))));
    assert_eq!(expiry_cutoff(604_800_000), 0);
    assert_eq!(expiry_cutoff(1_000_000_000), 395_200_000);
}

#[test]
fn registering_and_unregistering_tasks() {
    assert!(register_gauge(Some(true), false));
    assert!(!register_gauge(Some(false), true));
    assert!(register_gauge(None, true));
    assert_eq!(
        unregister_plan(true, Some(3), true),
        UnregisterPlan { clear_gauge: true, leave_group: Some(3), cancel: false }
    );
    assert_eq!(
        unregister_plan(true, Some(3), false),
        UnregisterPlan { clear_gauge: false, leave_group: None, cancel: false }
    );
    assert_eq!(
        unregister_plan(true, None, false),
        UnregisterPlan { clear_gauge: true, leave_group: None, cancel: true }
    );
    assert_eq!(
        unregister_plan(false, None, true),
        UnregisterPlan { clear_gauge: false, leave_group: None, cancel: false }
    );
}

#[test]
fn changing_groups() {
    assert_eq!(group_change(false, true), GroupChange::Refused);
    assert_eq!(group_change(true, false), GroupChange::Accepted { notify_flow: false });
    assert_eq!(group_change(true, true), GroupChange::Accepted { notify_flow: true });
    assert!(!group_has_custom_content(&None, &None, &None));
    assert!(group_has_custom_content(&None, &None, &Some("agent".to_string())));
    assert!(group_has_custom_content(&Some("t".to_string()), &None, &None));
}

#[test]
fn progress_events_of_tasks() {
    let p = progress_notify_of(Action::Upload, 5, 100, &vec![10, 20, 30], 1, 25, "f".to_string(), Version::API10);
    assert_eq!(p.total, Some(60));
    assert_eq!(p.multi_upload, Some((1, 3)));
    assert_eq!(p.processed, 25);
    assert_eq!((p.task_id, p.uid), (5, 100));
    let q = progress_notify_of(Action::Download, 6, 100, &vec![10, -1, 30], 0, 5, "g".to_string(), Version::API9);
    assert_eq!(q.total, None);
    let r = progress_notify_of(Action::Download, 7, 100, &vec![-1], 0, 5, "h".to_string(), Version::API9);
    assert_eq!((r.total, r.multi_upload), (None, None));
    let e = progress_notify_of(Action::Download, 8, 100, &vec![], 0, 0, "i".to_string(), Version::API9);
    assert_eq!((e.total, e.multi_upload), (Some(0), None));
}

#[test]
fn finished_task_notifications() {
    let (o, clear) = task_completed_outcome(&finished(5, true), true, None, &texts());
    assert!(clear);
    let c = published(o);
    assert_eq!(c.title, "Download complete");
    assert_eq!(c.text, "a.txt");
    assert_eq!(c.want_agent, "");
    assert_eq!((c.request_id, c.uid), (5, 100));
    assert!(!c.live_view && !c.x_mark);
    assert_eq!(c.progress_circle, closed());

    let (o, clear) = task_completed_outcome(&finished(5, false), true, None, &texts());
    assert!(!clear);
    assert_eq!(published(o).title, "Download failed");

    let custom = CustomizedNotification {
        title: Some("Mine".to_string()),
        text: None,
        want_agent: Some("agent".to_string()),
    };
    let (o, _) = task_completed_outcome(&finished(5, true), true, Some(custom), &texts());
    let c = published(o);
    assert_eq!((c.title.as_str(), c.text.as_str(), c.want_agent.as_str()), ("Mine", "a.txt", "agent"));

    let (o, clear) = task_completed_outcome(&finished(5, true), false, None, &texts());
    assert!(matches!(o, FlowOutcome::Cancel(5)));
    assert!(!clear);
}

#[test]
fn running_task_notifications() {
    let c = published(task_progress_outcome(&running(Version::API10), None, true, None, &texts()));
    assert_eq!(c.title, "Downloading 25.00%");
    assert_eq!(c.text, "a.txt");
    assert!(c.live_view && c.x_mark);
    assert_eq!(c.progress_circle, ProgressCircle { open: true, current: 50, total: 200 });
    assert!(matches!(
        task_progress_outcome(&running(Version::API10), Some(true), false, None, &texts()),
        FlowOutcome::Nothing
    ));
    assert!(matches!(
        task_progress_outcome(&running(Version::API9), Some(false), true, None, &texts()),
        FlowOutcome::Nothing
    ));
    assert!(matches!(
        task_progress_outcome(&running(Version::API9), Some(true), false, None, &texts()),
        FlowOutcome::Publish(_)
    ));
}

fn group_of_one() -> GroupProgress {
    let mut g = GroupProgress::new();
    g.update_task_state(1, State::Running);
    g
}

#[test]
fn group_progress_notifications() {
    let mut g = group_of_one();
    let mut info = running(Version::API10);
    info.task_id = 1;
    info.processed = 100;
    assert!(matches!(
        group_progress_outcome(&mut g, &info, 9, false, true, None, &texts()),
        FlowOutcome::Nothing
    ));
    assert_eq!(g.processed(), 0);
    assert!(matches!(
        group_progress_outcome(&mut g, &info, 9, true, false, None, &texts()),
        FlowOutcome::Nothing
    ));
    assert_eq!(g.processed(), 100);
    let c = published(group_progress_outcome(&mut g, &info, 9, true, true, None, &texts()));
    assert_eq!(c.title, "Downloading 100 B");
    assert_eq!(c.text, "0 succeeded, 0 failed");
    assert_eq!((c.request_id, c.uid), (9, 100));
    assert!(c.live_view);
    assert_eq!(c.progress_circle, ProgressCircle { open: true, current: 0, total: 1 });

    let c = published(attach_group_outcome(&g, 9, 100, true, None, &texts()));
    assert_eq!(c.request_id, 9);
    assert_eq!(c.text, "0 succeeded, 0 failed");
    assert!(matches!(attach_group_outcome(&g, 9, 100, false, None, &texts()), FlowOutcome::Nothing));
}

#[test]
fn group_completion_notifications() {
    // a group still taking tasks shows its progress
    let mut g = group_of_one();
    let (o, ended) = group_completed_outcome(&mut g, true, &finished(1, true), 9, true, true, true, None, &texts());
    assert!(!ended);
    assert_eq!(published(o).text, "1 succeeded, 0 failed");

    // a closed group whose tasks all finished shows its completion
    let mut g = group_of_one();
    let (o, ended) = group_completed_outcome(&mut g, true, &finished(1, true), 9, false, true, true, None, &texts());
    assert!(ended);
    let c = published(o);
    assert_eq!(c.title, "Downloaded 100 B");
    assert_eq!(c.text, "1 succeeded, 0 failed");
    assert!(!c.live_view);
    assert_eq!(c.progress_circle, closed());

    // completions hidden: the group notification goes
    let mut g = group_of_one();
    let (o, ended) = group_completed_outcome(&mut g, true, &finished(1, false), 9, false, true, false, None, &texts());
    assert!(ended);
    assert!(matches!(o, FlowOutcome::Cancel(9)));
    assert_eq!(g.failed(), 1);

    // an unknown group is left as it is
    let mut g = GroupProgress::new();
    let (o, ended) = group_completed_outcome(&mut g, false, &finished(1, true), 9, true, false, true, None, &texts());
    assert!(!ended);
    assert!(matches!(o, FlowOutcome::Nothing));
    assert!(g.is_empty());

    let mut g = group_of_one();
    g.update_task_state(1, State::Completed);
    g.update_task_progress(1, 2048);
    assert!(matches!(group_eventual_outcome(&g, 9, 100, true, true, None, &texts()), FlowOutcome::Nothing));
    assert!(matches!(group_eventual_outcome(&g, 9, 100, false, false, None, &texts()), FlowOutcome::Cancel(9)));
    let c = published(group_eventual_outcome(&g, 9, 100, false, true, None, &texts()));
    assert_eq!(c.title, "Downloaded 2.00 KB");
}

#[test]
fn tasks_leaving_groups() {
    let mut g = GroupProgress::new();
    g.update_task_state(1, State::Running);
    g.update_task_state(2, State::Completed);
    let c = published(unregister_outcome(&mut g, 1, 9, 100, false, true, None, &texts()));
    assert_eq!(g.total(), 1);
    assert_eq!(c.text, "1 succeeded, 0 failed");
    // a finished task stays
    assert!(matches!(unregister_outcome(&mut g, 2, 9, 100, true, true, None, &texts()), FlowOutcome::Nothing));
    assert_eq!(g.total(), 1);

    let mut g = group_of_one();
    assert!(matches!(unregister_outcome(&mut g, 1, 9, 100, true, true, None, &texts()), FlowOutcome::Cancel(9)));
    assert!(g.is_empty());
}
