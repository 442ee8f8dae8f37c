//! The requests about notification groups, and the one that switches the
//! notifications of tasks off.

use vstd::prelude::*;

use crate::command::{
    delete_group_answer, group_disable, notification_disable_check, parse_task_id, task_id_of,
};
use crate::config::Action;
use crate::error::ErrorCode;
use crate::notification_bar::notification_config::{dec_opt_text, opt_view, read_opt_text};
use crate::parcel::{
    dec_count, dec_texts, next_bool, next_str, next_u32, read_texts, MsgParcel, ParcelItem,
};
use crate::permission::ManagerPermission;
use crate::text::{dec_digits, texts, u64_to_text};
use crate::control::codes_items;

verus! {

/// A list of texts read from the front of a message (its count, then the
/// texts), and what is left.
pub open spec fn dec_text_list(s: Seq<ParcelItem>) -> Option<(Seq<Seq<char>>, Seq<ParcelItem>)> {
    match dec_count(s) {
        None => None,
        Some(n) => dec_texts(s.skip(1), n),
    }
}

/// Whether the task named by `text` may join a group for the caller: it
/// must be a number, and a lookup of its owner (`query_uid`) must give the
/// caller.
pub open spec fn attachable<Q: Fn(u32) -> Option<u64>>(
    query_uid: Q,
    caller_uid: u64,
    text: Seq<char>,
) -> bool {
    task_id_of(text) matches Some(id) && query_uid.ensures((id,), Some(caller_uid))
}

/// Whether the task named by `text` is refused a group: it is no number,
/// or a lookup of its owner (`query_uid`) gave someone other than the
/// caller, or nobody.
pub open spec fn refused<Q: Fn(u32) -> Option<u64>>(
    query_uid: Q,
    caller_uid: u64,
    text: Seq<char>,
) -> bool {
    match task_id_of(text) {
        None => true,
        Some(id) => exists|found: Option<u64>|
            #[trigger] query_uid.ensures((id,), found) && found != Some(caller_uid),
    }
}

/// Whether a request to attach tasks to a group, read from the front of
/// `s`, names the group `group` and, in order, the tasks `ids`.
pub open spec fn names_attach(s: Seq<ParcelItem>, ids: Seq<u32>, group: u32) -> bool {
    &&& next_str(s) matches Some(g) && task_id_of(g) == Some(group)
    &&& dec_text_list(s.skip(1)) matches Some((l, _)) && l.len() == ids.len() && forall|i: int|
        0 <= i < l.len() ==> task_id_of(l[i]) == Some(#[trigger] ids[i])
}

/// What a request to attach tasks to a group, read from the front of `s`,
/// gets. A missing group id fails with nothing written; one that is no
/// number answers `GroupNotFound`. Then the task ids come as a list, whose
/// absence fails with nothing written. A task id that is no number, or
/// whose task is not found to be the caller's, answers `TaskNotFound`;
/// otherwise the task manager attaches the tasks (`send`): a message it
/// did not take fails with nothing written, an answer it did not give is
/// `Other`, else its answer is written.
pub open spec fn attach_outcome<
    Q: Fn(u32) -> Option<u64>,
    S: Fn(u64, Vec<u32>, u32) -> (bool, Option<ErrorCode>),
>(
    query_uid: Q,
    send: S,
    caller_uid: u64,
    s: Seq<ParcelItem>,
    added: Seq<ParcelItem>,
    r: Result<(), ()>,
) -> bool {
    match next_str(s) {
        None => r is Err && added == Seq::<ParcelItem>::empty(),
        Some(g) => match task_id_of(g) {
            None => r is Ok && added == seq![ParcelItem::Code(ErrorCode::GroupNotFound)],
            Some(group) => match dec_text_list(s.skip(1)) {
                None => r is Err && added == Seq::<ParcelItem>::empty(),
                Some((ids, _)) => {
                    ||| {
                        &&& r is Ok
                        &&& added == seq![ParcelItem::Code(ErrorCode::TaskNotFound)]
                        &&& exists|i: int|
                            0 <= i < ids.len() && refused(query_uid, caller_uid, #[trigger] ids[i])
                    }
                    ||| {
                        &&& forall|i: int|
                            0 <= i < ids.len() ==> attachable(query_uid, caller_uid, #[trigger] ids[i])
                        &&& exists|v: Vec<u32>, answer: (bool, Option<ErrorCode>)|
                            v@.len() == ids.len() && (forall|i: int|
                                0 <= i < ids.len() ==> task_id_of(ids[i]) == Some(#[trigger] v@[i]))
                                && #[trigger] send.ensures((caller_uid, v, group), answer)
                                && if !answer.0 {
                                r is Err && added == Seq::<ParcelItem>::empty()
                            } else {
                                r is Ok && added == seq![
                                    ParcelItem::Code(
                                        match answer.1 {
                                            Some(a) => a,
                                            None => ErrorCode::Other,
                                        },
                                    ),
                                ]
                            }
                    }
                },
            },
        },
    }
}

proof fn lemma_kept(items: Seq<ParcelItem>, added: Seq<ParcelItem>)
    ensures
        (items + added).take(items.len() as int) == items,
        (items + added).skip(items.len() as int) == added,
        items.take(items.len() as int) == items,
        items.skip(items.len() as int) == Seq::<ParcelItem>::empty(),
{
    assert((items + added).take(items.len() as int) =~= items);
    assert((items + added).skip(items.len() as int) =~= added);
    assert(items.take(items.len() as int) =~= items);
    assert(items.skip(items.len() as int) =~= Seq::<ParcelItem>::empty());
}

fn write_one(reply: &mut MsgParcel, code: ErrorCode)
    requires
        old(reply).wf(),
    ensures
        final(reply).wf(),
        final(reply).items() == old(reply).items() + seq![ParcelItem::Code(code)],
{
    reply.write_code(code);
    proof {
        assert(reply.items() =~= old(reply).items() + seq![ParcelItem::Code(code)]);
    }
}

/// Attaches the tasks named in `data` to a group; see `attach_outcome`.
/// The task manager may be asked only for the caller, and only for the
/// group and the tasks named, all of them the caller's.
pub fn attach_group<
    Q: Fn(u32) -> Option<u64>,
    S: Fn(u64, Vec<u32>, u32) -> (bool, Option<ErrorCode>),
>(
    data: &mut MsgParcel,
    reply: &mut MsgParcel,
    caller_uid: u64,
    query_uid: Q,
    send: S,
) -> (r: Result<(), ()>)
    requires
        old(data).wf(),
        old(reply).wf(),
        forall|id: u32| query_uid.requires((id,)),
        forall|uid: u64, ids: Vec<u32>, group: u32|
            #![trigger send.requires((uid, ids, group))]
            uid == caller_uid && names_attach(old(data).rest(), ids@, group) && (forall|i: int|
                0 <= i < ids@.len() ==> query_uid.ensures((#[trigger] ids@[i],), Some(caller_uid)))
                ==> send.requires((uid, ids, group)),
    ensures
        final(data).wf(),
        final(reply).wf(),
        final(data).items() == old(data).items(),
        final(reply).items().len() >= old(reply).items().len(),
        final(reply).items().take(old(reply).items().len() as int) == old(reply).items(),
        attach_outcome(
            query_uid,
            send,
            caller_uid,
            old(data).rest(),
            final(reply).items().skip(old(reply).items().len() as int),
            r,
        ),
{
    let ghost before = reply.items();
    let ghost s = data.rest();
    proof {
        lemma_kept(before, seq![ParcelItem::Code(ErrorCode::GroupNotFound)]);
        lemma_kept(before, seq![ParcelItem::Code(ErrorCode::TaskNotFound)]);
    }
    let g = match data.read_string() {
        Some(g) => g,
        None => return Err(()),
    };
    let group = match parse_task_id(g.as_str()) {
        Some(group) => group,
        None => {
            write_one(reply, ErrorCode::GroupNotFound);
            return Ok(());
        },
    };
    let task_ids = match read_texts(data) {
        Some(v) => v,
        None => return Err(()),
    };
    let ghost names = texts(task_ids@);
    let mut ids: Vec<u32> = Vec::new();
    let mut i: usize = 0;
    while i < task_ids.len()
        invariant
            reply.wf(),
            reply.items() == before,
            before == old(reply).items(),
            data.wf(),
            data.items() == old(data).items(),
            s == old(data).rest(),
            next_str(s) == Some(g@),
            task_id_of(g@) == Some(group),
            dec_text_list(s.skip(1)) matches Some((l, _)) && l == names,
            names == texts(task_ids@),
            names.len() == task_ids@.len(),
            i <= task_ids@.len(),
            ids@.len() == i,
            forall|j: int| 0 <= j < i ==> task_id_of(names[j]) == Some(#[trigger] ids@[j]),
            forall|j: int| 0 <= j < i ==> attachable(query_uid, caller_uid, #[trigger] names[j]),
            forall|id: u32| query_uid.requires((id,)),
        decreases task_ids@.len() - i,
    {
        let text = &task_ids[i];
        assert(text@ == names[i as int]);
        let id = match parse_task_id(text.as_str()) {
            Some(id) => id,
            None => {
                write_one(reply, ErrorCode::TaskNotFound);
                proof {
                    assert(refused(query_uid, caller_uid, names[i as int]));
                    assert(reply.items().skip(before.len() as int) == seq![
                    ParcelItem::Code(ErrorCode::TaskNotFound),
                ]);
                    assert(exists|j: int|
                    0 <= j < names.len() && refused(query_uid, caller_uid, #[trigger] names[j]));
                }
                return Ok(());
            },
        };
        let found = query_uid(id);
        if found != Some(caller_uid) {
            write_one(reply, ErrorCode::TaskNotFound);
            proof {
                assert(query_uid.ensures((id,), found));
                assert(refused(query_uid, caller_uid, names[i as int]));
                assert(reply.items().skip(before.len() as int) == seq![
                    ParcelItem::Code(ErrorCode::TaskNotFound),
                ]);
                assert(exists|j: int|
                    0 <= j < names.len() && refused(query_uid, caller_uid, #[trigger] names[j]));
            }
            return Ok(());
        }
        proof {
            assert(query_uid.ensures((id,), found));
        }
        ids.push(id);
        i = i + 1;
    }
    let ghost v = ids;
    proof {
        assert forall|j: int| 0 <= j < v@.len() implies query_uid.ensures(
            (#[trigger] v@[j],),
            Some(caller_uid),
        ) by {
            assert(attachable(query_uid, caller_uid, names[j]));
            assert(task_id_of(names[j]) == Some(v@[j]));
        }
        assert(names_attach(s, v@, group));
    }
    let answer = send(caller_uid, ids, group);
    proof {
        assert(send.ensures((caller_uid, v, group), answer));
        assert(v@.len() == names.len());
        assert(forall|j: int|
            0 <= j < names.len() ==> task_id_of(names[j]) == Some(#[trigger] v@[j]));
        assert(forall|j: int|
            0 <= j < names.len() ==> attachable(query_uid, caller_uid, #[trigger] names[j]));
    }
    if !answer.0 {
        return Err(());
    }
    let code = match answer.1 {
        Some(a) => a,
        None => ErrorCode::Other,
    };
    write_one(reply, code);
    proof {
        lemma_kept(before, seq![ParcelItem::Code(code)]);
    }
    Ok(())
}

/// What a request to close a group, read from the front of `s`, gets: a
/// missing group id fails with nothing written; one that is no number
/// answers `GroupNotFound`; otherwise the group is closed for the caller
/// (`delete`), and the answer is success if it was found.
pub open spec fn delete_outcome<D: Fn(u32, u64) -> bool>(
    delete: D,
    caller_uid: u64,
    s: Seq<ParcelItem>,
    added: Seq<ParcelItem>,
    r: Result<(), ()>,
) -> bool {
    match next_str(s) {
        None => r is Err && added == Seq::<ParcelItem>::empty(),
        Some(g) => match task_id_of(g) {
            None => r is Ok && added == seq![ParcelItem::Code(ErrorCode::GroupNotFound)],
            Some(group) => exists|deleted: bool|
                #[trigger] delete.ensures((group, caller_uid), deleted) && r is Ok && added == seq![
                    ParcelItem::Code(
                        if deleted {
                            ErrorCode::ErrOk
                        } else {
                            ErrorCode::GroupNotFound
                        },
                    ),
                ],
        },
    }
}

/// Closes the group named in `data`; see `delete_outcome`. Only that group
/// may be closed, and only for the caller.
pub fn delete_group<D: Fn(u32, u64) -> bool>(
    data: &mut MsgParcel,
    reply: &mut MsgParcel,
    caller_uid: u64,
    delete: D,
) -> (r: Result<(), ()>)
    requires
        old(data).wf(),
        old(reply).wf(),
        forall|group: u32, uid: u64|
            #![trigger delete.requires((group, uid))]
            uid == caller_uid && (next_str(old(data).rest()) matches Some(g) && task_id_of(g)
                == Some(group)) ==> delete.requires((group, uid)),
    ensures
        final(data).wf(),
        final(reply).wf(),
        final(data).items() == old(data).items(),
        final(reply).items().len() >= old(reply).items().len(),
        final(reply).items().take(old(reply).items().len() as int) == old(reply).items(),
        delete_outcome(
            delete,
            caller_uid,
            old(data).rest(),
            final(reply).items().skip(old(reply).items().len() as int),
            r,
        ),
{
    let ghost before = reply.items();
    proof {
        lemma_kept(before, seq![ParcelItem::Code(ErrorCode::GroupNotFound)]);
    }
    let ghost s = data.rest();
    let g = match data.read_string() {
        Some(g) => g,
        None => return Err(()),
    };
    let group = match parse_task_id(g.as_str()) {
        Some(group) => group,
        None => {
            write_one(reply, ErrorCode::GroupNotFound);
            return Ok(());
        },
    };
    proof {
        assert(next_str(s) == Some(g@));
    }
    let deleted = delete(group, caller_uid);
    let code = delete_group_answer(deleted);
    write_one(reply, code);
    proof {
        assert(delete.ensures((group, caller_uid), deleted));
        lemma_kept(before, seq![ParcelItem::Code(code)]);
    }
    Ok(())
}

/// Whether `code` can answer a request to switch off the notifications of
/// the task named by `text`: a text that is no number, or a task with no
/// owner (`query_uid`), is not found; the caller's own task is switched
/// off; another's needs the caller's management permission
/// (`check_manager`), and for a permission over one action, the task's
/// action (`query_action`), as `notification_disable_check` says.
pub open spec fn disable_answer<
    Q: Fn(u32) -> Option<u64>,
    M: Fn() -> ManagerPermission,
    A: Fn(u32) -> Option<Action>,
>(
    query_uid: Q,
    check_manager: M,
    query_action: A,
    caller_uid: u64,
    text: Seq<char>,
    code: ErrorCode,
) -> bool {
    match task_id_of(text) {
        None => code == ErrorCode::TaskNotFound,
        Some(id) => exists|found: Option<u64>|
            #[trigger] query_uid.ensures((id,), found) && match found {
                None => code == ErrorCode::TaskNotFound,
                Some(uid) => if uid == caller_uid {
                    code == ErrorCode::ErrOk
                } else {
                    exists|p: ManagerPermission|
                        #[trigger] check_manager.ensures((), p) && match p {
                            ManagerPermission::ManagerAll => code == ErrorCode::ErrOk,
                            ManagerPermission::NoPermission => code == ErrorCode::Permission,
                            ManagerPermission::ManagerDownLoad => exists|a: Option<Action>|
                                #[trigger] query_action.ensures((id,), a) && code == match a {
                                    None => ErrorCode::TaskNotFound,
                                    Some(a) => if a == Action::Download {
                                        ErrorCode::ErrOk
                                    } else {
                                        ErrorCode::Permission
                                    },
                                },
                            ManagerPermission::ManagerUpload => exists|a: Option<Action>|
                                #[trigger] query_action.ensures((id,), a) && code == match a {
                                    None => ErrorCode::TaskNotFound,
                                    Some(a) => if a == Action::Upload {
                                        ErrorCode::ErrOk
                                    } else {
                                        ErrorCode::Permission
                                    },
                                },
                        }
                },
            },
    }
}

/// Whether the notifications of task `id`, owned by `uid`, may be switched
/// off for the caller: the owner lookup (`query_uid`) gave `uid`, and the
/// task is the caller's own, or the caller's management permission
/// (`check_manager`) covers it as `notification_disable_check` says.
pub open spec fn may_disable<
    Q: Fn(u32) -> Option<u64>,
    M: Fn() -> ManagerPermission,
    A: Fn(u32) -> Option<Action>,
>(query_uid: Q, check_manager: M, query_action: A, caller_uid: u64, uid: u64, id: u32) -> bool {
    &&& query_uid.ensures((id,), Some(uid))
    &&& {
        ||| uid == caller_uid
        ||| check_manager.ensures((), ManagerPermission::ManagerAll)
        ||| check_manager.ensures((), ManagerPermission::ManagerDownLoad) && query_action.ensures(
            (id,),
            Some(Action::Download),
        )
        ||| check_manager.ensures((), ManagerPermission::ManagerUpload) && query_action.ensures(
            (id,),
            Some(Action::Upload),
        )
    }
}

/// Whether the list of task ids at the front of `s` names the task `id`.
pub open spec fn lists_task(s: Seq<ParcelItem>, id: u32) -> bool {
    dec_text_list(s) matches Some((l, _)) && exists|i: int|
        0 <= i < l.len() && #[trigger] task_id_of(l[i]) == Some(id)
}

/// What a request to switch off the notifications of tasks, read from the
/// front of `s`, gets: the task ids come as a list, whose absence fails
/// with nothing written; otherwise an answer per task, in order, as
/// `disable_answer` allows.
pub open spec fn disable_outcome<
    Q: Fn(u32) -> Option<u64>,
    M: Fn() -> ManagerPermission,
    A: Fn(u32) -> Option<Action>,
>(
    query_uid: Q,
    check_manager: M,
    query_action: A,
    caller_uid: u64,
    s: Seq<ParcelItem>,
    added: Seq<ParcelItem>,
    r: Result<(), ()>,
) -> bool {
    match dec_text_list(s) {
        None => r is Err && added == Seq::<ParcelItem>::empty(),
        Some((ids, _)) => {
            &&& r is Ok
            &&& added.len() == ids.len()
            &&& forall|i: int|
                0 <= i < ids.len() ==> (#[trigger] added[i] matches ParcelItem::Code(c)
                    && disable_answer(query_uid, check_manager, query_action, caller_uid, ids[i], c))
        },
    }
}

fn disable_one<
    Q: Fn(u32) -> Option<u64>,
    M: Fn() -> ManagerPermission,
    A: Fn(u32) -> Option<Action>,
    D: Fn(u64, u32),
>(
    text: &String,
    caller_uid: u64,
    permission: &mut Option<ManagerPermission>,
    query_uid: &Q,
    check_manager: &M,
    query_action: &A,
    disable: &D,
) -> (r: ErrorCode)
    requires
        forall|id: u32| query_uid.requires((id,)),
        check_manager.requires(()),
        forall|id: u32| query_action.requires((id,)),
        forall|uid: u64, id: u32|
            #![trigger disable.requires((uid, id))]
            task_id_of(text@) == Some(id) && may_disable(
                *query_uid,
                *check_manager,
                *query_action,
                caller_uid,
                uid,
                id,
            ) ==> disable.requires((uid, id)),
        *old(permission) matches Some(p) ==> check_manager.ensures((), p),
    ensures
        *final(permission) matches Some(p) ==> check_manager.ensures((), p),
        disable_answer(*query_uid, *check_manager, *query_action, caller_uid, text@, r),
{
    let id = match parse_task_id(text.as_str()) {
        Some(id) => id,
        None => return ErrorCode::TaskNotFound,
    };
    let found = query_uid(id);
    proof {
        assert(query_uid.ensures((id,), found));
    }
    let uid = match found {
        Some(uid) => uid,
        None => return ErrorCode::TaskNotFound,
    };
    let mut action: Option<Action> = None;
    let owns = uid == caller_uid;
    let p = if owns {
        ManagerPermission::NoPermission
    } else {
        match *permission {
            Some(p) => p,
            None => {
                let p = check_manager();
                *permission = Some(p);
                p
            },
        }
    };
    if !owns && (p == ManagerPermission::ManagerDownLoad || p == ManagerPermission::ManagerUpload) {
        action = query_action(id);
        proof {
            assert(query_action.ensures((id,), action));
        }
    }
    proof {
        if !owns {
            assert(check_manager.ensures((), p));
        }
    }
    match notification_disable_check(owns, p, action) {
        Ok(()) => {
            proof {
                assert(may_disable(*query_uid, *check_manager, *query_action, caller_uid, uid, id));
            }
            disable(uid, id);
            ErrorCode::ErrOk
        },
        Err(e) => e,
    }
}

/// Switches off the notifications of the tasks named in `data`, handing
/// each that may be switched off to `disable` with its owner; see
/// `disable_outcome`. `disable` may be called only as `may_disable`
/// allows. The management permission is looked up at most once.
pub fn disable_task_notifications<
    Q: Fn(u32) -> Option<u64>,
    M: Fn() -> ManagerPermission,
    A: Fn(u32) -> Option<Action>,
    D: Fn(u64, u32),
>(
    data: &mut MsgParcel,
    reply: &mut MsgParcel,
    caller_uid: u64,
    query_uid: Q,
    check_manager: M,
    query_action: A,
    disable: D,
) -> (r: Result<(), ()>)
    requires
        old(data).wf(),
        old(reply).wf(),
        forall|id: u32| query_uid.requires((id,)),
        check_manager.requires(()),
        forall|id: u32| query_action.requires((id,)),
        forall|uid: u64, id: u32|
            #![trigger disable.requires((uid, id))]
            lists_task(old(data).rest(), id) && may_disable(
                query_uid,
                check_manager,
                query_action,
                caller_uid,
                uid,
                id,
            ) ==> disable.requires((uid, id)),
    ensures
        final(data).wf(),
        final(reply).wf(),
        final(data).items() == old(data).items(),
        final(reply).items().len() >= old(reply).items().len(),
        final(reply).items().take(old(reply).items().len() as int) == old(reply).items(),
        disable_outcome(
            query_uid,
            check_manager,
            query_action,
            caller_uid,
            old(data).rest(),
            final(reply).items().skip(old(reply).items().len() as int),
            r,
        ),
{
    let ghost before = reply.items();
    let ghost s = data.rest();
    proof {
        lemma_kept(before, Seq::<ParcelItem>::empty());
    }
    let task_ids = match read_texts(data) {
        Some(v) => v,
        None => return Err(()),
    };
    let ghost names = texts(task_ids@);
    let mut permission: Option<ManagerPermission> = None;
    let mut codes: Vec<ErrorCode> = Vec::new();
    let mut i: usize = 0;
    while i < task_ids.len()
        invariant
            names == texts(task_ids@),
            names.len() == task_ids@.len(),
            i <= task_ids@.len(),
            codes@.len() == i,
            permission matches Some(p) ==> check_manager.ensures((), p),
            forall|j: int|
                0 <= j < i ==> disable_answer(
                    query_uid,
                    check_manager,
                    query_action,
                    caller_uid,
                    names[j],
                    #[trigger] codes@[j],
                ),
            forall|id: u32| query_uid.requires((id,)),
            check_manager.requires(()),
            forall|id: u32| query_action.requires((id,)),
            s == old(data).rest(),
            dec_text_list(s) matches Some((l, _)) && l == names,
            forall|uid: u64, id: u32|
                #![trigger disable.requires((uid, id))]
                lists_task(s, id) && may_disable(
                    query_uid,
                    check_manager,
                    query_action,
                    caller_uid,
                    uid,
                    id,
                ) ==> disable.requires((uid, id)),
        decreases task_ids@.len() - i,
    {
        proof {
            assert forall|uid: u64, id: u32|
                task_id_of(task_ids@[i as int]@) == Some(id) && may_disable(
                    query_uid,
                    check_manager,
                    query_action,
                    caller_uid,
                    uid,
                    id,
                ) implies #[trigger] disable.requires((uid, id)) by {
                assert(task_ids@[i as int]@ == names[i as int]);
                assert(task_id_of(names[i as int]) == Some(id));
                assert(lists_task(s, id));
            }
        }
        let code = disable_one(
            &task_ids[i],
            caller_uid,
            &mut permission,
            &query_uid,
            &check_manager,
            &query_action,
            &disable,
        );
        proof {
            assert(task_ids@[i as int]@ == names[i as int]);
        }
        codes.push(code);
        i = i + 1;
    }
    let ghost opened = reply.items();
    let mut k: usize = 0;
    while k < codes.len()
        invariant
            reply.wf(),
            k <= codes@.len(),
            reply.items() == opened + codes_items(codes@.take(k as int)),
        decreases codes@.len() - k,
    {
        reply.write_code(codes[k]);
        proof {
            assert(codes_items(codes@.take(k + 1)) =~= codes_items(codes@.take(k as int)).push(
                ParcelItem::Code(codes@[k as int]),
            ));
        }
        k = k + 1;
    }
    proof {
        assert(codes@.take(codes@.len() as int) =~= codes@);
        lemma_kept(before, codes_items(codes@));
    }
    Ok(())
}

/// Whether a new group's notifications are switched off: only when a
/// system application with the permission to do so asks.
pub open spec fn switched_off(disable: bool, is_system_api: bool, permission: bool) -> bool {
    disable && is_system_api && permission
}

/// What a request to create a group, read from the front of `s`, gets: the
/// progress gauge, the custom title, text and click action (each an
/// optional text), the switch and the visibility mask; any of them missing
/// fails with nothing written. Notifications are switched off only when a
/// system application with the permission to do so asks. The group is made
/// (`create`) and its new id written in decimal.
pub open spec fn create_group_outcome<
    C: Fn(bool, Option<String>, Option<String>, Option<String>, bool, u32) -> u32,
>(
    create: C,
    is_system_api: bool,
    disable_permission: bool,
    s: Seq<ParcelItem>,
    added: Seq<ParcelItem>,
    r: Result<(), ()>,
) -> bool {
    match next_bool(s) {
        None => r is Err && added == Seq::<ParcelItem>::empty(),
        Some(gauge) => match dec_opt_text(s.skip(1)) {
            None => r is Err && added == Seq::<ParcelItem>::empty(),
            Some((title, s1)) => match dec_opt_text(s1) {
                None => r is Err && added == Seq::<ParcelItem>::empty(),
                Some((text, s2)) => match dec_opt_text(s2) {
                    None => r is Err && added == Seq::<ParcelItem>::empty(),
                    Some((want_agent, s3)) => match next_bool(s3) {
                        None => r is Err && added == Seq::<ParcelItem>::empty(),
                        Some(disable) => match next_u32(s3.skip(1)) {
                            None => r is Err && added == Seq::<ParcelItem>::empty(),
                            Some(visibility) => exists|
                                t: Option<String>,
                                x: Option<String>,
                                w: Option<String>,
                                id: u32,
                            |
                                opt_view(t) == title && opt_view(x) == text && opt_view(w)
                                    == want_agent && #[trigger] create.ensures(
                                    (
                                        gauge,
                                        t,
                                        x,
                                        w,
                                        switched_off(disable, is_system_api, disable_permission),
                                        visibility,
                                    ),
                                    id,
                                ) && r is Ok && added == seq![
                                    ParcelItem::Str(dec_digits(id as nat)),
                                ],
                        },
                    },
                },
            },
        },
    }
}

/// Creates a notification group as `data` describes; see
/// `create_group_outcome`. A group with its notifications switched off may
/// be made only for a system application with the permission to do so.
pub fn create_group<C: Fn(bool, Option<String>, Option<String>, Option<String>, bool, u32) -> u32>(
    data: &mut MsgParcel,
    reply: &mut MsgParcel,
    is_system_api: bool,
    disable_permission: bool,
    create: C,
) -> (r: Result<(), ()>)
    requires
        old(data).wf(),
        old(reply).wf(),
        forall|g: bool, t: Option<String>, x: Option<String>, w: Option<String>, d: bool, v: u32|
            #![trigger create.requires((g, t, x, w, d, v))]
            (d ==> is_system_api && disable_permission) ==> create.requires((g, t, x, w, d, v)),
    ensures
        final(data).wf(),
        final(reply).wf(),
        final(data).items() == old(data).items(),
        final(reply).items().len() >= old(reply).items().len(),
        final(reply).items().take(old(reply).items().len() as int) == old(reply).items(),
        create_group_outcome(
            create,
            is_system_api,
            disable_permission,
            old(data).rest(),
            final(reply).items().skip(old(reply).items().len() as int),
            r,
        ),
{
    let ghost before = reply.items();
    let ghost s = data.rest();
    proof {
        lemma_kept(before, Seq::<ParcelItem>::empty());
    }
    let gauge = match data.read_bool() {
        Some(g) => g,
        None => return Err(()),
    };
    let title = match read_opt_text(data) {
        Some(t) => t,
        None => return Err(()),
    };
    let text = match read_opt_text(data) {
        Some(t) => t,
        None => return Err(()),
    };
    let want_agent = match read_opt_text(data) {
        Some(t) => t,
        None => return Err(()),
    };
    let ghost s3 = data.rest();
    let disable = match data.read_bool() {
        Some(d) => d,
        None => return Err(()),
    };
    let visibility = match data.read_u32() {
        Some(v) => v,
        None => return Err(()),
    };
    let d = group_disable(disable, is_system_api, disable_permission);
    let ghost (t, x, w) = (title, text, want_agent);
    let id = create(gauge, title, text, want_agent, d, visibility);
    let digits = u64_to_text(id as u64);
    reply.write_string(digits.as_str());
    proof {
        assert(create.ensures((gauge, t, x, w, d, visibility), id));
        let added = seq![ParcelItem::Str(dec_digits(id as nat))];
        assert(reply.items() =~= before + added);
        lemma_kept(before, added);
    }
    Ok(())
}

} // verus!
