//! The request that creates a batch of tasks.
//!
//! Each task comes as a task configuration followed by its notification
//! settings. An entry that cannot be read is answered `ParameterCheck`;
//! the others go to the task manager, which answers with the new task's
//! id or an error. A new task's notification settings are stored; a system
//! application may switch its notifications off, given the permission to
//! do so; the caller is then subscribed to the task. The reply holds a
//! success code, then an answer code and a task id per entry.

use vstd::prelude::*;

use crate::command::{
    may_start, notification_switch, switch_of, NotificationSwitch, CONSTRUCT_MAX,
};
use crate::error::ErrorCode;
use crate::notification_bar::notification_config::{
    decode_notification_config, opt_view, NotificationConfig, NotificationRecord,
};
use crate::parcel::{
    config_matches, decode_config, deserialize, maps_match, next_u32, ConfigRecord, MsgParcel,
    ParcelItem,
};
use crate::config::{Mode, TaskConfig};

verus! {

/// What the task manager answers to a new task: whether it took the
/// message, and then the new task's id or an error, if it answered.
pub type ConstructAnswer = (bool, Option<Result<u32, ErrorCode>>);

/// The entries of a batch that can be read one after the other from the
/// front of `s`, at most `n` of them: each a task configuration, then
/// notification settings. The first entry that cannot be read from where
/// the one before it ended ends the list.
pub open spec fn decoded_prefix(s: Seq<ParcelItem>, n: nat) -> Seq<
    (ConfigRecord, NotificationRecord),
>
    decreases n,
{
    if n == 0 {
        Seq::empty()
    } else {
        match decode_config(s) {
            None => Seq::empty(),
            Some(d) => match decode_notification_config(d.rest) {
                None => Seq::empty(),
                Some(nr) => seq![(d, nr)] + decoded_prefix(nr.rest, (n - 1) as nat),
            },
        }
    }
}

/// Whether `c` is a task configuration read from some place in the message
/// `m`, for a caller of the given bundle, user, token and account.
pub open spec fn read_from(
    m: Seq<ParcelItem>,
    c: TaskConfig,
    bundle: Seq<char>,
    uid: u64,
    token_id: u64,
    account: Seq<char>,
) -> bool {
    exists|k: int|
        0 <= k <= m.len() && (#[trigger] decode_config(m.skip(k)) matches Some(d) && config_matches(
            c,
            d,
            bundle,
            uid,
            token_id,
            account,
        ) && maps_match(c, d))
}

/// Whether the task manager (`send`) answered some configuration with the
/// new task `id`.
pub open spec fn made_by<S: Fn(TaskConfig) -> ConstructAnswer>(send: S, id: u32) -> bool {
    exists|c: TaskConfig| #[trigger] send.ensures((c,), (true, Some(Ok(id))))
}

/// Whether the task manager (`send`) answered the configuration of a
/// background task with the new task `id`.
pub open spec fn made_in_background<S: Fn(TaskConfig) -> ConstructAnswer>(send: S, id: u32) -> bool {
    exists|c: TaskConfig|
        #[trigger] send.ensures((c,), (true, Some(Ok(id)))) && c.common_data.mode == Mode::BackGround
}

/// Whether notification settings hold what was read of them (their task
/// aside).
pub open spec fn settings_fit(n: NotificationConfig, rec: NotificationRecord) -> bool {
    &&& opt_view(n.title) == rec.title
    &&& opt_view(n.text) == rec.text
    &&& opt_view(n.want_agent) == rec.want_agent
    &&& n.disable == rec.disable
    &&& n.visibility == rec.visibility
}

/// Whether `code` and `tid` answer a new task with configuration `config`
/// and notification settings `settings`, for the caller `uid`. A message
/// the task manager (`send`) did not take, or an answer it did not give,
/// is `Other` with no id; an error it answered comes with no id. A new id
/// comes back, and the task's settings, with that id, were handed to
/// `customize`. When a system application asks to switch the task's
/// notifications off (see `switch_of`) without the permission to do so,
/// the answer is `Permission`; otherwise a background task's
/// notifications are switched off for the caller (`disable`) when asked,
/// and the answer is that of subscribing the caller to the task
/// (`subscribe`).
pub open spec fn construct_answer<
    S: Fn(TaskConfig) -> ConstructAnswer,
    C: Fn(&NotificationConfig),
    D: Fn(u64, u32),
    B: Fn(u32) -> ErrorCode,
>(
    send: S,
    customize: C,
    disable: D,
    subscribe: B,
    uid: u64,
    is_system_api: bool,
    notification_permission: bool,
    config: TaskConfig,
    settings: NotificationRecord,
    code: ErrorCode,
    tid: u32,
) -> bool {
    exists|answer: ConstructAnswer|
        #[trigger] send.ensures((config,), answer) && if !answer.0 {
            code == ErrorCode::Other && tid == 0
        } else {
            match answer.1 {
                None => code == ErrorCode::Other && tid == 0,
                Some(Err(e)) => code == e && tid == 0,
                Some(Ok(id)) => {
                    let switch = switch_of(
                        settings.disable,
                        is_system_api,
                        notification_permission,
                        config.common_data.mode,
                    );
                    &&& tid == id
                    &&& exists|n: NotificationConfig|
                        n.task_id == id && settings_fit(n, settings) && #[trigger] customize.ensures(
                            (&n,),
                            (),
                        )
                    &&& switch == NotificationSwitch::Disable ==> disable.ensures((uid, id), ())
                    &&& if switch == NotificationSwitch::Refuse {
                        code == ErrorCode::Permission
                    } else {
                        exists|ret: ErrorCode| #[trigger] subscribe.ensures((id,), ret) && code == ret
                    }
                },
            }
        }
}

/// Whether `code` and `tid` can answer an entry at all: one that could not
/// be read is `ParameterCheck` with no id; any other is answered for some
/// configuration and settings as `construct_answer` says.
pub open spec fn some_answer<
    S: Fn(TaskConfig) -> ConstructAnswer,
    C: Fn(&NotificationConfig),
    D: Fn(u64, u32),
    B: Fn(u32) -> ErrorCode,
>(
    send: S,
    customize: C,
    disable: D,
    subscribe: B,
    uid: u64,
    is_system_api: bool,
    notification_permission: bool,
    code: ErrorCode,
    tid: u32,
) -> bool {
    (code == ErrorCode::ParameterCheck && tid == 0) || exists|
        c: TaskConfig,
        settings: NotificationRecord,
    |
        construct_answer(
            send,
            customize,
            disable,
            subscribe,
            uid,
            is_system_api,
            notification_permission,
            c,
            settings,
            code,
            tid,
        )
}

/// The answer code of entry `i` in a reply.
pub open spec fn code_at(added: Seq<ParcelItem>, i: int) -> ParcelItem {
    added[1 + 2 * i]
}

/// The task id of entry `i` in a reply.
pub open spec fn id_at(added: Seq<ParcelItem>, i: int) -> ParcelItem {
    added[2 + 2 * i]
}

/// The answers as written to a message: each code, then its task id.
pub open spec fn answers_items(v: Seq<(ErrorCode, u32)>) -> Seq<ParcelItem>
    decreases v.len(),
{
    if v.len() == 0 {
        Seq::empty()
    } else {
        answers_items(v.drop_last()) + seq![
            ParcelItem::Code(v.last().0),
            ParcelItem::U32(v.last().1),
        ]
    }
}

/// What a request to create tasks, read from the front of `s`, gets, for a
/// caller of the given bundle, user, token and account. The caller needs
/// the internet permission or the download management permission (else
/// `Permission`). The count of entries comes first: a missing count fails
/// with nothing written, one over the limit with `Other`. Otherwise the
/// request succeeds: success is written, then an answer code and a task id
/// per entry, each as `some_answer` allows. The entries that can be read
/// one after the other (`decoded_prefix`) are each answered for a
/// configuration read from them, as `construct_answer` says; the first
/// entry that cannot be read from where the one before it ended is
/// answered `ParameterCheck` with no id.
pub open spec fn construct_outcome<
    S: Fn(TaskConfig) -> ConstructAnswer,
    C: Fn(&NotificationConfig),
    D: Fn(u64, u32),
    B: Fn(u32) -> ErrorCode,
>(
    send: S,
    customize: C,
    disable: D,
    subscribe: B,
    may_create: bool,
    is_system_api: bool,
    notification_permission: bool,
    bundle: Seq<char>,
    uid: u64,
    token_id: u64,
    account: Seq<char>,
    s: Seq<ParcelItem>,
    added: Seq<ParcelItem>,
    r: Result<(), ()>,
) -> bool {
    if !may_create {
        r is Err && added == seq![ParcelItem::Code(ErrorCode::Permission)]
    } else {
        match next_u32(s) {
            None => r is Err && added == Seq::<ParcelItem>::empty(),
            Some(n) => if n > CONSTRUCT_MAX {
                r is Err && added == seq![ParcelItem::Code(ErrorCode::Other)]
            } else {
                let es = decoded_prefix(s.skip(1), n as nat);
                &&& r is Ok
                &&& added.len() == 1 + 2 * n
                &&& added[0] == ParcelItem::Code(ErrorCode::ErrOk)
                &&& forall|i: int|
                    0 <= i < n ==> (#[trigger] code_at(added, i) matches ParcelItem::Code(code)
                        && id_at(added, i) matches ParcelItem::U32(tid) && some_answer(
                        send,
                        customize,
                        disable,
                        subscribe,
                        uid,
                        is_system_api,
                        notification_permission,
                        code,
                        tid,
                    ))
                &&& forall|i: int|
                    0 <= i < es.len() ==> (#[trigger] code_at(added, i) matches ParcelItem::Code(
                        code,
                    ) && id_at(added, i) matches ParcelItem::U32(tid) && exists|c: TaskConfig|
                        config_matches(c, es[i].0, bundle, uid, token_id, account) && maps_match(
                            c,
                            es[i].0,
                        ) && construct_answer(
                            send,
                            customize,
                            disable,
                            subscribe,
                            uid,
                            is_system_api,
                            notification_permission,
                            c,
                            es[i].1,
                            code,
                            tid,
                        ))
                &&& es.len() < n ==> code_at(added, es.len() as int) == ParcelItem::Code(
                    ErrorCode::ParameterCheck,
                ) && id_at(added, es.len() as int) == ParcelItem::U32(0)
            },
        }
    }
}

proof fn lemma_answers_items(v: Seq<(ErrorCode, u32)>)
    ensures
        answers_items(v).len() == 2 * v.len(),
        forall|i: int|
            0 <= i < v.len() ==> answers_items(v)[2 * i] == ParcelItem::Code((#[trigger] v[i]).0)
                && answers_items(v)[2 * i + 1] == ParcelItem::U32(v[i].1),
    decreases v.len(),
{
    if v.len() > 0 {
        lemma_answers_items(v.drop_last());
        assert forall|i: int| 0 <= i < v.len() implies answers_items(v)[2 * i] == ParcelItem::Code(
            (#[trigger] v[i]).0,
        ) && answers_items(v)[2 * i + 1] == ParcelItem::U32(v[i].1) by {
            if i < v.len() - 1 {
                assert(v.drop_last()[i] == v[i]);
            }
        }
    }
}

proof fn lemma_prefix_len(s: Seq<ParcelItem>, k: nat)
    ensures
        decoded_prefix(s, k).len() <= k,
    decreases k,
{
    if k > 0 {
        match decode_config(s) {
            None => {},
            Some(d) => match decode_notification_config(d.rest) {
                None => {},
                Some(nr) => lemma_prefix_len(nr.rest, (k - 1) as nat),
            },
        }
    }
}

fn write_answers(reply: &mut MsgParcel, answers: &Vec<(ErrorCode, u32)>)
    requires
        old(reply).wf(),
    ensures
        final(reply).wf(),
        final(reply).items() == old(reply).items() + seq![ParcelItem::Code(ErrorCode::ErrOk)]
            + answers_items(answers@),
{
    reply.write_code(ErrorCode::ErrOk);
    let ghost opened = reply.items();
    let mut k: usize = 0;
    while k < answers.len()
        invariant
            reply.wf(),
            k <= answers@.len(),
            opened == old(reply).items().push(ParcelItem::Code(ErrorCode::ErrOk)),
            reply.items() == opened + answers_items(answers@.take(k as int)),
        decreases answers@.len() - k,
    {
        reply.write_code(answers[k].0);
        reply.write_u32(answers[k].1);
        proof {
            assert(answers@.take(k + 1).drop_last() =~= answers@.take(k as int));
        }
        k = k + 1;
    }
    proof {
        assert(answers@.take(answers@.len() as int) =~= answers@);
        assert(reply.items() =~= old(reply).items() + seq![ParcelItem::Code(ErrorCode::ErrOk)]
            + answers_items(answers@));
    }
}

fn answer_entry<
    S: Fn(TaskConfig) -> ConstructAnswer,
    C: Fn(&NotificationConfig),
    D: Fn(u64, u32),
    B: Fn(u32) -> ErrorCode,
>(
    config: TaskConfig,
    notification: NotificationConfig,
    Ghost(settings): Ghost<NotificationRecord>,
    uid: u64,
    is_system_api: bool,
    notification_permission: bool,
    send: &S,
    customize: &C,
    disable_notifications: &D,
    subscribe: &B,
) -> (r: (ErrorCode, u32))
    requires
        settings_fit(notification, settings),
        send.requires((config,)),
        forall|n: &NotificationConfig|
            #![trigger customize.requires((n,))]
            made_by(*send, n.task_id) ==> customize.requires((n,)),
        forall|u: u64, id: u32|
            #![trigger disable_notifications.requires((u, id))]
            u == uid && is_system_api && notification_permission && made_in_background(*send, id)
                ==> disable_notifications.requires((u, id)),
        forall|id: u32|
            #![trigger subscribe.requires((id,))]
            made_by(*send, id) ==> subscribe.requires((id,)),
    ensures
        construct_answer(
            *send,
            *customize,
            *disable_notifications,
            *subscribe,
            uid,
            is_system_api,
            notification_permission,
            config,
            settings,
            r.0,
            r.1,
        ),
{
    let ghost c = config;
    let mode = config.common_data.mode;
    let answer = send(config);
    proof {
        assert(send.ensures((c,), answer));
    }
    if !answer.0 {
        return (ErrorCode::Other, 0);
    }
    let task_id = match answer.1 {
        None => return (ErrorCode::Other, 0),
        Some(Err(e)) => return (e, 0),
        Some(Ok(id)) => id,
    };
    proof {
        assert(send.ensures((c,), (true, Some(Ok(task_id)))));
        assert(c.common_data.mode == mode);
    }
    let mut notification = notification;
    notification.task_id = task_id;
    customize(&notification);
    proof {
        assert(customize.ensures((&notification,), ()));
    }
    match notification_switch(notification.disable, is_system_api, notification_permission, mode) {
        NotificationSwitch::Refuse => return (ErrorCode::Permission, task_id),
        NotificationSwitch::Disable => {
            disable_notifications(uid, task_id);
            proof {
                assert(disable_notifications.ensures((uid, task_id), ()));
            }
        },
        NotificationSwitch::Keep => {},
    }
    let ret = subscribe(task_id);
    proof {
        assert(subscribe.ensures((task_id,), ret));
    }
    (ret, task_id)
}

/// Creates the tasks whose configurations and notification settings are
/// in `data`, for a caller of the given bundle, user, token and account;
/// see `construct_outcome`. New notification settings are handed to
/// `customize`; a task whose notifications are switched off is handed to
/// `disable_notifications` with the caller's user.
#[verifier::rlimit(40)]
pub fn construct<
    S: Fn(TaskConfig) -> ConstructAnswer,
    C: Fn(&NotificationConfig),
    D: Fn(u64, u32),
    B: Fn(u32) -> ErrorCode,
>(
    data: &mut MsgParcel,
    reply: &mut MsgParcel,
    bundle: String,
    uid: u64,
    token_id: u64,
    account: String,
    download_permission: bool,
    internet: bool,
    is_system_api: bool,
    notification_permission: bool,
    send: S,
    customize: C,
    disable_notifications: D,
    subscribe: B,
) -> (r: Result<(), ()>)
    requires
        old(data).wf(),
        old(reply).wf(),
        forall|c: TaskConfig|
            #![trigger send.requires((c,))]
            (internet || download_permission) && (next_u32(old(data).rest()) matches Some(n) && n
                <= CONSTRUCT_MAX) && read_from(old(data).items(), c, bundle@, uid, token_id, account@)
                ==> send.requires((c,)),
        forall|n: &NotificationConfig|
            #![trigger customize.requires((n,))]
            made_by(send, n.task_id) ==> customize.requires((n,)),
        forall|u: u64, id: u32|
            #![trigger disable_notifications.requires((u, id))]
            u == uid && is_system_api && notification_permission && made_in_background(send, id)
                ==> disable_notifications.requires((u, id)),
        forall|id: u32|
            #![trigger subscribe.requires((id,))]
            made_by(send, id) ==> subscribe.requires((id,)),
    ensures
        final(data).wf(),
        final(reply).wf(),
        final(data).items() == old(data).items(),
        final(reply).items().len() >= old(reply).items().len(),
        final(reply).items().take(old(reply).items().len() as int) == old(reply).items(),
        construct_outcome(
            send,
            customize,
            disable_notifications,
            subscribe,
            internet || download_permission,
            is_system_api,
            notification_permission,
            bundle@,
            uid,
            token_id,
            account@,
            old(data).rest(),
            final(reply).items().skip(old(reply).items().len() as int),
            r,
        ),
{
    let ghost s = data.rest();
    let ghost before = reply.items();
    if !may_start(internet, download_permission) {
        reply.write_code(ErrorCode::Permission);
        proof {
            assert(reply.items().take(before.len() as int) =~= before);
            assert(reply.items().skip(before.len() as int) =~= seq![
                ParcelItem::Code(ErrorCode::Permission),
            ]);
        }
        return Err(());
    }
    let n = match data.read_u32() {
        Some(n) => n,
        None => {
            proof {
                assert(reply.items().take(before.len() as int) =~= before);
                assert(reply.items().skip(before.len() as int) =~= Seq::<ParcelItem>::empty());
            }
            return Err(());
        },
    };
    let len = n as usize;
    if len > CONSTRUCT_MAX {
        reply.write_code(ErrorCode::Other);
        proof {
            assert(reply.items().take(before.len() as int) =~= before);
            assert(reply.items().skip(before.len() as int) =~= seq![
                ParcelItem::Code(ErrorCode::Other),
            ]);
        }
        return Err(());
    }
    let ghost t = s.skip(1);
    let ghost es = decoded_prefix(t, n as nat);
    let mut answers: Vec<(ErrorCode, u32)> = Vec::new();
    let ghost mut configs: Seq<TaskConfig> = Seq::empty();
    let ghost mut intact: bool = true;
    let mut i: usize = 0;
    proof {
        lemma_prefix_len(t, n as nat);
        assert(es.skip(0) =~= es);
    }
    while i < len
        invariant
            data.wf(),
            data.items() == old(data).items(),
            reply.items() == before,
            i <= len,
            len == n,
            answers@.len() == i,
            configs.len() == i,
            es == decoded_prefix(t, n as nat),
            es.len() <= n,
            intact ==> i <= es.len() && decoded_prefix(data.rest(), (n - i) as nat) == es.skip(
                i as int,
            ),
            !intact ==> es.len() < i && answers@[es.len() as int] == (ErrorCode::ParameterCheck, 0u32),
            forall|j: int|
                0 <= j < i ==> some_answer(
                    send,
                    customize,
                    disable_notifications,
                    subscribe,
                    uid,
                    is_system_api,
                    notification_permission,
                    (#[trigger] answers@[j]).0,
                    answers@[j].1,
                ),
            forall|j: int|
                0 <= j < i && j < es.len() ==> config_matches(
                    #[trigger] configs[j],
                    es[j].0,
                    bundle@,
                    uid,
                    token_id,
                    account@,
                ) && maps_match(configs[j], es[j].0) && construct_answer(
                    send,
                    customize,
                    disable_notifications,
                    subscribe,
                    uid,
                    is_system_api,
                    notification_permission,
                    configs[j],
                    es[j].1,
                    answers@[j].0,
                    answers@[j].1,
                ),
            internet || download_permission,
            s == old(data).rest(),
            next_u32(s) == Some(n),
            n <= CONSTRUCT_MAX,
            forall|c: TaskConfig|
                #![trigger send.requires((c,))]
                (internet || download_permission) && (next_u32(old(data).rest()) matches Some(n)
                    && n <= CONSTRUCT_MAX) && read_from(
                    old(data).items(),
                    c,
                    bundle@,
                    uid,
                    token_id,
                    account@,
                ) ==> send.requires((c,)),
            forall|n: &NotificationConfig|
                #![trigger customize.requires((n,))]
                made_by(send, n.task_id) ==> customize.requires((n,)),
            forall|u: u64, id: u32|
                #![trigger disable_notifications.requires((u, id))]
                u == uid && is_system_api && notification_permission && made_in_background(send, id)
                    ==> disable_notifications.requires((u, id)),
            forall|id: u32|
                #![trigger subscribe.requires((id,))]
                made_by(send, id) ==> subscribe.requires((id,)),
        decreases len - i,
    {
        let ghost here = data.rest();
        let ghost k = data.consumed();
        proof {
            data.lemma_rest_follows();
        }
        let config = deserialize(data, bundle.clone(), uid, token_id, account.clone());
        let ghost middle = data.rest();
        let notification = NotificationConfig::deserialize(data);
        let ghost mut witness: TaskConfig = arbitrary();
        let ghost was_intact = intact;
        let entry = match (config, notification) {
            (Some(config), Some(notification)) => {
                let ghost c = config;
                let ghost d = decode_config(here).unwrap();
                let ghost rec = decode_notification_config(middle).unwrap();
                proof {
                    witness = c;
                    assert(decode_config(old(data).items().skip(k)) == Some(d));
                    assert(maps_match(c, d));
                    assert(read_from(old(data).items(), c, bundle@, uid, token_id, account@));
                }
                let e = answer_entry(
                    config,
                    notification,
                    Ghost(rec),
                    uid,
                    is_system_api,
                    notification_permission,
                    &send,
                    &customize,
                    &disable_notifications,
                    &subscribe,
                );
                proof {
                    if intact {
                        let rest = decoded_prefix(rec.rest, (n - i - 1) as nat);
                        assert(decoded_prefix(here, (n - i) as nat) == seq![(d, rec)] + rest);
                        assert(es.skip(i as int)[0] == es[i as int]);
                        assert(es[i as int] == (d, rec));
                        assert(es.skip(i as int).skip(1) =~= es.skip(i + 1));
                        assert(es.skip(i + 1) == rest);
                        assert(data.rest() == rec.rest);
                    }
                }
                e
            },
            _ => {
                proof {
                    if intact {
                        assert(decoded_prefix(here, (n - i) as nat) =~= Seq::<
                            (ConfigRecord, NotificationRecord),
                        >::empty());
                        assert(es.skip(i as int).len() == 0);
                        intact = false;
                    }
                }
                (ErrorCode::ParameterCheck, 0)
            },
        };
        let ghost prior = answers@;
        answers.push(entry);
        proof {
            let prior_configs = configs;
            configs = configs.push(witness);
            assert forall|j: int| 0 <= j < i + 1 && j < es.len() implies config_matches(
                #[trigger] configs[j],
                es[j].0,
                bundle@,
                uid,
                token_id,
                account@,
            ) && maps_match(configs[j], es[j].0) && construct_answer(
                send,
                customize,
                disable_notifications,
                subscribe,
                uid,
                is_system_api,
                notification_permission,
                configs[j],
                es[j].1,
                answers@[j].0,
                answers@[j].1,
            ) by {
                if j < i {
                    assert(answers@[j] == prior[j]);
                    assert(configs[j] == prior_configs[j]);
                }
            }
            if !was_intact {
                assert(answers@[es.len() as int] == prior[es.len() as int]);
            }
        }
        i = i + 1;
    }
    write_answers(reply, &answers);
    proof {
        lemma_answers_items(answers@);
        let added = seq![ParcelItem::Code(ErrorCode::ErrOk)] + answers_items(answers@);
        assert(reply.items() =~= before + added);
        assert(reply.items().take(before.len() as int) =~= before);
        assert(reply.items().skip(before.len() as int) =~= added);
        assert forall|j: int|
            #![trigger code_at(added, j)]
            #![trigger answers@[j]]
            0 <= j < n implies code_at(added, j) == ParcelItem::Code(answers@[j].0) && id_at(
                added,
                j,
            ) == ParcelItem::U32(answers@[j].1) by {
            assert(added[1 + 2 * j] == answers_items(answers@)[2 * j]);
            assert(added[2 + 2 * j] == answers_items(answers@)[2 * j + 1]);
        }
        if intact {
            assert(es.skip(n as int).len() == decoded_prefix(data.rest(), 0).len());
        }
        assert forall|j: int| 0 <= j < es.len() implies exists|c: TaskConfig|
            config_matches(c, es[j].0, bundle@, uid, token_id, account@) && maps_match(c, es[j].0)
                && construct_answer(
                send,
                customize,
                disable_notifications,
                subscribe,
                uid,
                is_system_api,
                notification_permission,
                c,
                es[j].1,
                (#[trigger] answers@[j]).0,
                answers@[j].1,
            ) by {
            let c = configs[j];
            assert(config_matches(c, es[j].0, bundle@, uid, token_id, account@));
            assert(maps_match(c, es[j].0));
        }
    }
    Ok(())
}

} // verus!
