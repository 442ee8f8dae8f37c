use request_services::config::Action;
use request_services::error::ErrorCode;
use request_services::lookup::{query, show, touch};
use request_services::parcel::{MsgParcel, ParcelValue};
use std::cell::RefCell;

/// Task 1 belongs to uid 10, task 2 to uid 20, task 3 to uid 30 of another
/// account; the task manager knows nothing of task 4 (uid 10).
fn owner(id: u32) -> Option<u64> {
    match id {
        1 | 4 => Some(10),
        2 => Some(20),
        3 => Some(30),
        _ => None,
    }
}

fn current_account(uid: u64) -> bool {
    uid != 30
}

fn ids(ids: &[&str]) -> MsgParcel {
    let mut v = vec![ParcelValue::U32(ids.len() as u32)];
    for id in ids {
        v.push(ParcelValue::Str(id.to_string()));
    }
    MsgParcel::from_values(v)
}

#[test]
fn show_answers_own_tasks_only() {
    let asked = RefCell::new(Vec::new());
    let mut data = ids(&["1", "2", "x", "99", "3", "4"]);
    let r = show(&mut data, 10, false, owner, current_account, |uid, id, token| {
        asked.borrow_mut().push((uid, id, token));
        if id == 4 { None } else { Some(format!("info {}", id)) }
    });
    let answers = r.unwrap();
    assert_eq!(
        answers,
        vec![
            (ErrorCode::ErrOk, Some("info 1".to_string())),
            (ErrorCode::TaskNotFound, None),
            (ErrorCode::TaskNotFound, None),
            (ErrorCode::TaskNotFound, None),
            (ErrorCode::TaskNotFound, None),
            (ErrorCode::TaskNotFound, None),
        ]
    );
    assert_eq!(*asked.borrow(), vec![(10, 1, None), (10, 4, None)]);
}

#[test]
fn show_with_permission_reaches_other_owners() {
    let asked = RefCell::new(Vec::new());
    let mut data = ids(&["2", "3"]);
    let r = show(&mut data, 10, true, owner, current_account, |uid, id, _| {
        asked.borrow_mut().push((uid, id));
        Some(id)
    });
    assert_eq!(r.unwrap(), vec![(ErrorCode::ErrOk, Some(2)), (ErrorCode::TaskNotFound, None)]);
    assert_eq!(*asked.borrow(), vec![(20, 2)]);
}

#[test]
fn touch_reads_a_token_per_task() {
    let asked = RefCell::new(Vec::new());
    let mut data = MsgParcel::from_values(vec![
        ParcelValue::U32(2),
        ParcelValue::Str("1".to_string()),
        ParcelValue::Str("secret".to_string()),
        ParcelValue::Str("2".to_string()),
        ParcelValue::Str("other".to_string()),
    ]);
    let r = touch(&mut data, 10, false, owner, current_account, |uid, id, token| {
        asked.borrow_mut().push((uid, id, token.clone()));
        Some(token.unwrap_or_default())
    });
    assert_eq!(
        r.unwrap(),
        vec![(ErrorCode::ErrOk, Some("secret".to_string())), (ErrorCode::TaskNotFound, None)]
    );
    assert_eq!(*asked.borrow(), vec![(10, 1, Some("secret".to_string()))]);
}

#[test]
fn touch_fails_on_a_missing_token() {
    let mut data = MsgParcel::from_values(vec![ParcelValue::U32(1), ParcelValue::Str("1".to_string())]);
    let r = touch(&mut data, 10, false, owner, current_account, |_, id, _| Some(id));
    assert_eq!(r, Err(None));
}

#[test]
fn batches_over_the_limit_ask_nothing() {
    let asked = RefCell::new(0);
    let mut data = MsgParcel::from_values(vec![ParcelValue::U32(201), ParcelValue::Str("1".to_string())]);
    let r = show(&mut data, 10, true, owner, current_account, |_, id, _| {
        *asked.borrow_mut() += 1;
        Some(id)
    });
    assert_eq!(r, Err(Some(ErrorCode::Other)));
    assert_eq!(*asked.borrow(), 0);
    let mut data = MsgParcel::from_values(vec![]);
    let r = show(&mut data, 10, true, owner, current_account, |_, id, _| Some(id));
    assert_eq!(r, Err(None));
}

#[test]
fn query_needs_a_system_application_with_permission() {
    let mut data = ids(&["1"]);
    let r = query(&mut data, false, Some(Action::Download), owner, current_account, |_, id, _| Some(id));
    assert_eq!(r, Err(Some(ErrorCode::SystemApi)));
    let r = query(&mut data, true, None, owner, current_account, |_, id, _| Some(id));
    assert_eq!(r, Err(Some(ErrorCode::Permission)));
}

#[test]
fn query_reaches_any_task_of_the_account() {
    let mut data = ids(&["1", "2", "3"]);
    let r = query(&mut data, true, Some(Action::Any), owner, current_account, |uid, id, _| Some((uid, id)));
    assert_eq!(
        r.unwrap(),
        vec![
            (ErrorCode::ErrOk, Some((10, 1))),
            (ErrorCode::ErrOk, Some((20, 2))),
            (ErrorCode::TaskNotFound, None),
        ]
    );
}
