//! The requests that start, pause or remove a batch of tasks.
//!
//! Each request names its tasks by id. The owner of a task is looked up,
//! the task must belong to the current account and, unless the caller may
//! manage downloads, to the caller; the task manager then does the work and
//! answers. The reply holds a success code, then one answer per task in the
//! order of the request. The lookups and the task manager are reached
//! through the functions the caller hands in.

use vstd::prelude::*;

use crate::command::{
    access_verdict, manager_answer, may_pause, mode_change_needed, may_remove, may_start, parse_task_id,
    set_code_with_index, speed_limit_owner, start_batch, task_id_of, CONTROL_MAX, MIN_SPEED_LIMIT,
};
use crate::config::{mode_of_code, version_of_code, Mode, Version};
use crate::error::ErrorCode;
use crate::parcel::{next_str, next_u32, MsgParcel, ParcelItem};

verus! {

/// The text a value holds, or nothing for a value of another type.
pub open spec fn text_of(x: ParcelItem) -> Seq<char> {
    match x {
        ParcelItem::Str(s) => s,
        _ => Seq::empty(),
    }
}

/// Whether the next `n` values of a message are texts.
pub open spec fn texts_ahead(s: Seq<ParcelItem>, n: nat) -> bool {
    n <= s.len() && forall|i: int| 0 <= i < n ==> (#[trigger] s[i]) is Str
}

/// The answer of the task manager, from whether it took the message and
/// what it answered: a message it did not take, or an answer it did not
/// give, is `Other`.
pub open spec fn answer_code(answer: (bool, Option<ErrorCode>)) -> ErrorCode {
    if !answer.0 {
        ErrorCode::Other
    } else {
        match answer.1 {
            Some(a) => a,
            None => ErrorCode::Other,
        }
    }
}

/// Whether `code` can answer for the task named by `id_text`, given what
/// the lookup of owners (`query`), the account check (`account`) and the
/// task manager (`send`) can return: a text that is no task id, or a task
/// with no owner, is not found; so is a task of another account, or of
/// another caller when the caller may not manage downloads; otherwise the
/// answer of the task manager, asked for that owner and task (see
/// `answer_code`).
pub open spec fn control_answer<
    Q: Fn(u32) -> Option<u64>,
    A: Fn(u64) -> bool,
    S: Fn(u64, u32) -> (bool, Option<ErrorCode>),
>(
    query: Q,
    account: A,
    send: S,
    caller_uid: u64,
    permission: bool,
    id_text: Seq<char>,
    code: ErrorCode,
) -> bool {
    match task_id_of(id_text) {
        None => code == ErrorCode::TaskNotFound,
        Some(id) => exists|found: Option<u64>|
            #[trigger] query.ensures((id,), found) && match found {
                None => code == ErrorCode::TaskNotFound,
                Some(uid) => exists|current: bool|
                    #[trigger] account.ensures((uid,), current) && if !current || (uid != caller_uid
                        && !permission) {
                        code == ErrorCode::TaskNotFound
                    } else {
                        exists|answer: (bool, Option<ErrorCode>)|
                            #[trigger] send.ensures((uid, id), answer) && code == answer_code(
                                answer,
                            )
                    },
            },
    }
}

/// Whether the reply `added` and the result `r` are what a batch of tasks
/// read from the front of `s` gets: the count of tasks is read first; a
/// missing count, or a task id that is missing or no text, fails with
/// nothing written; a count over the limit fails with `Other`; otherwise
/// success is written, then for each task an answer that
/// `control_answer` allows.
pub open spec fn control_outcome<
    Q: Fn(u32) -> Option<u64>,
    A: Fn(u64) -> bool,
    S: Fn(u64, u32) -> (bool, Option<ErrorCode>),
>(
    query: Q,
    account: A,
    send: S,
    caller_uid: u64,
    permission: bool,
    s: Seq<ParcelItem>,
    added: Seq<ParcelItem>,
    r: Result<(), ()>,
) -> bool {
    match next_u32(s) {
        None => r is Err && added == Seq::<ParcelItem>::empty(),
        Some(n) => if n > CONTROL_MAX {
            r is Err && added == seq![ParcelItem::Code(ErrorCode::Other)]
        } else if !texts_ahead(s.skip(1), n as nat) {
            r is Err && added == Seq::<ParcelItem>::empty()
        } else {
            &&& r is Ok
            &&& added.len() == n + 1
            &&& added[0] == ParcelItem::Code(ErrorCode::ErrOk)
            &&& forall|i: int|
                0 <= i < n ==> (#[trigger] added.skip(1)[i] matches ParcelItem::Code(c)
                    && control_answer(
                    query,
                    account,
                    send,
                    caller_uid,
                    permission,
                    text_of(s.skip(1)[i]),
                    c,
                ))
        },
    }
}

/// Whether a batch read from the front of `s` names the task `id`: its
/// count is within the limit and one of the task ids that follow it is
/// `id`.
pub open spec fn names_task(s: Seq<ParcelItem>, id: u32) -> bool {
    &&& next_u32(s) matches Some(n) && n <= CONTROL_MAX
    &&& exists|i: int|
        0 <= i < next_u32(s)->0 && #[trigger] task_id_of(text_of(s.skip(1)[i])) == Some(id)
}

/// Whether the caller may act on the task `id` as a task of `uid`: a
/// lookup of the task's owner (`query`) gave `uid`, the owner belongs to
/// the current account (`account`), and the owner is the caller unless the
/// caller may manage downloads. The task manager is only ever asked to act
/// on such tasks.
pub open spec fn may_act<Q: Fn(u32) -> Option<u64>, A: Fn(u64) -> bool>(
    query: Q,
    account: A,
    caller_uid: u64,
    permission: bool,
    uid: u64,
    id: u32,
) -> bool {
    &&& query.ensures((id,), Some(uid))
    &&& account.ensures((uid,), true)
    &&& (uid == caller_uid || permission)
}

/// The codes as written to a message.
pub open spec fn codes_items(codes: Seq<ErrorCode>) -> Seq<ParcelItem> {
    codes.map_values(|c: ErrorCode| ParcelItem::Code(c))
}

proof fn lemma_answers_written<
    Q: Fn(u32) -> Option<u64>,
    A: Fn(u64) -> bool,
    S: Fn(u64, u32) -> (bool, Option<ErrorCode>),
>(
    query: Q,
    account: A,
    send: S,
    caller_uid: u64,
    permission: bool,
    s: Seq<ParcelItem>,
    codes: Seq<ErrorCode>,
)
    requires
        forall|i: int|
            0 <= i < codes.len() ==> control_answer(
                query,
                account,
                send,
                caller_uid,
                permission,
                text_of(s[i]),
                #[trigger] codes[i],
            ),
    ensures
        ({
            let added = seq![ParcelItem::Code(ErrorCode::ErrOk)] + codes_items(codes);
            &&& added.len() == codes.len() + 1
            &&& added[0] == ParcelItem::Code(ErrorCode::ErrOk)
            &&& forall|i: int|
                0 <= i < codes.len() ==> (#[trigger] added.skip(1)[i] matches ParcelItem::Code(c)
                    && control_answer(
                    query,
                    account,
                    send,
                    caller_uid,
                    permission,
                    text_of(s[i]),
                    c,
                ))
        }),
{
    let added = seq![ParcelItem::Code(ErrorCode::ErrOk)] + codes_items(codes);
    assert(added.skip(1) =~= codes_items(codes));
}

/// Answers a batch of tasks read from `data` (their count, then the id of
/// each) and writes the reply to `reply`; see `control_outcome`. The task
/// manager (`send`) is asked only about tasks the batch names
/// (`names_task`) and the caller may act on (`may_act`).
pub fn control_tasks<
    Q: Fn(u32) -> Option<u64>,
    A: Fn(u64) -> bool,
    S: Fn(u64, u32) -> (bool, Option<ErrorCode>),
>(
    data: &mut MsgParcel,
    reply: &mut MsgParcel,
    caller_uid: u64,
    permission: bool,
    query: Q,
    account: A,
    send: S,
) -> (r: Result<(), ()>)
    requires
        old(data).wf(),
        old(reply).wf(),
        forall|id: u32| query.requires((id,)),
        forall|uid: u64| account.requires((uid,)),
        forall|uid: u64, id: u32|
            #![trigger send.requires((uid, id))]
            names_task(old(data).rest(), id) && may_act(
                query,
                account,
                caller_uid,
                permission,
                uid,
                id,
            ) ==> send.requires((uid, id)),
    ensures
        final(data).wf(),
        final(reply).wf(),
        final(data).items() == old(data).items(),
        final(reply).items().len() >= old(reply).items().len(),
        final(reply).items().take(old(reply).items().len() as int) == old(reply).items(),
        control_outcome(
            query,
            account,
            send,
            caller_uid,
            permission,
            old(data).rest(),
            final(reply).items().skip(old(reply).items().len() as int),
            r,
        ),
        next_u32(old(data).rest()) matches Some(n) && n > CONTROL_MAX ==> final(data).rest()
            == old(data).rest().skip(1),
        r is Ok ==> final(data).rest() == old(data).rest().skip(
            1 + next_u32(old(data).rest())->0,
        ),
{
    let ghost s = data.rest();
    let ghost before = reply.items();
    let n = match data.read_u32() {
        Some(n) => n,
        None => {
            proof {
                lemma_nothing_written(before);
            }
            return Err(());
        },
    };
    let len = n as usize;
    let mut answers = match start_batch(len, CONTROL_MAX) {
        Some(v) => v,
        None => {
            reply.write_code(ErrorCode::Other);
            proof {
                assert(reply.items().skip(before.len() as int) =~= seq![
                    ParcelItem::Code(ErrorCode::Other),
                ]);
                assert(reply.items().take(before.len() as int) =~= before);
            }
            return Err(());
        },
    };
    let ghost t = s.skip(1);
    let mut i: usize = 0;
    while i < len
        invariant
            data.wf(),
            reply.wf(),
            reply.items() == before,
            before == old(reply).items(),
            data.items() == old(data).items(),
            t == s.skip(1),
            s == old(data).rest(),
            len == n,
            n <= CONTROL_MAX,
            next_u32(s) == Some(n),
            i <= len,
            i <= t.len(),
            answers@.len() == len,
            data.rest() == t.skip(i as int),
            forall|j: int| 0 <= j < i ==> (#[trigger] t[j]) is Str,
            forall|j: int|
                0 <= j < i ==> control_answer(
                    query,
                    account,
                    send,
                    caller_uid,
                    permission,
                    text_of(t[j]),
                    #[trigger] answers@[j],
                ),
            forall|id: u32| query.requires((id,)),
            forall|uid: u64| account.requires((uid,)),
            forall|uid: u64, id: u32|
                #![trigger send.requires((uid, id))]
                names_task(s, id) && may_act(query, account, caller_uid, permission, uid, id)
                    ==> send.requires((uid, id)),
        decreases len - i,
    {
        let text = match data.read_string() {
            Some(text) => text,
            None => {
                proof {
                    assert(t.skip(i as int).len() == 0 || !(t.skip(i as int)[0] is Str));
                    if i < t.len() {
                        assert(t.skip(i as int)[0] == t[i as int]);
                    }
                    assert(!texts_ahead(t, n as nat));
                    lemma_nothing_written(before);
                }
                return Err(());
            },
        };
        proof {
            assert(t.skip(i as int)[0] == t[i as int]);
            assert(t.skip(i as int).skip(1) =~= t.skip(i + 1));
            assert(text@ == text_of(t[i as int]));
        }
        let code = match parse_task_id(text.as_str()) {
            None => ErrorCode::TaskNotFound,
            Some(id) => {
                let found = query(id);
                match found {
                    None => ErrorCode::TaskNotFound,
                    Some(uid) => {
                        let current = account(uid);
                        match access_verdict(found, current, caller_uid, permission) {
                            Err(e) => e,
                            Ok(owner) => {
                                proof {
                                    assert(query.ensures((id,), found));
                                    assert(account.ensures((uid,), current));
                                    assert(may_act(
                                        query,
                                        account,
                                        caller_uid,
                                        permission,
                                        owner,
                                        id,
                                    ));
                                    assert(task_id_of(text_of(s.skip(1)[i as int])) == Some(id));
                                    assert(names_task(s, id));
                                }
                                let answer = send(owner, id);
                                let code = manager_answer(answer.0, answer.1);
                                proof {
                                    assert(send.ensures((uid, id), answer));
                                }
                                code
                            },
                        }
                    },
                }
            },
        };
        set_code_with_index(&mut answers, i, code);
        i = i + 1;
    }
    proof {
        assert(texts_ahead(t, n as nat));
    }
    reply.write_code(ErrorCode::ErrOk);
    let ghost opened = reply.items();
    let mut k: usize = 0;
    while k < len
        invariant
            reply.wf(),
            k <= len,
            answers@.len() == len,
            opened == before.push(ParcelItem::Code(ErrorCode::ErrOk)),
            reply.items() == opened + codes_items(answers@.take(k as int)),
        decreases len - k,
    {
        reply.write_code(answers[k]);
        proof {
            assert(answers@.take(k + 1) =~= answers@.take(k as int).push(answers@[k as int]));
            assert(codes_items(answers@.take(k + 1)) =~= codes_items(answers@.take(k as int)).push(
                ParcelItem::Code(answers@[k as int]),
            ));
        }
        k = k + 1;
    }
    proof {
        assert(answers@.take(len as int) =~= answers@);
        lemma_answers_written(query, account, send, caller_uid, permission, t, answers@);
        assert(reply.items().skip(before.len() as int) =~= seq![
            ParcelItem::Code(ErrorCode::ErrOk),
        ] + codes_items(answers@));
        assert(reply.items().take(before.len() as int) =~= before);
        assert(t.skip(len as int) =~= s.skip(1 + n));
    }
    Ok(())
}

/// Starts the tasks named in `data`, for a caller that needs the internet
/// permission or the download management permission (else `Permission` is
/// written and the request fails); see `control_outcome` for the rest.
pub fn start<
    Q: Fn(u32) -> Option<u64>,
    A: Fn(u64) -> bool,
    S: Fn(u64, u32) -> (bool, Option<ErrorCode>),
>(
    data: &mut MsgParcel,
    reply: &mut MsgParcel,
    caller_uid: u64,
    download_permission: bool,
    internet: bool,
    query: Q,
    account: A,
    send: S,
) -> (r: Result<(), ()>)
    requires
        old(data).wf(),
        old(reply).wf(),
        forall|id: u32| query.requires((id,)),
        forall|uid: u64| account.requires((uid,)),
        forall|uid: u64, id: u32|
            (internet || download_permission) && names_task(old(data).rest(), id) && may_act(
                query,
                account,
                caller_uid,
                download_permission,
                uid,
                id,
            ) ==> send.requires((uid, id)),
    ensures
        final(data).wf(),
        final(reply).wf(),
        final(data).items() == old(data).items(),
        final(reply).items().len() >= old(reply).items().len(),
        final(reply).items().take(old(reply).items().len() as int) == old(reply).items(),
        !internet && !download_permission ==> r is Err && final(reply).items() == old(
            reply,
        ).items().push(ParcelItem::Code(ErrorCode::Permission)) && final(data).rest() == old(
            data,
        ).rest(),
        internet || download_permission ==> control_outcome(
            query,
            account,
            send,
            caller_uid,
            download_permission,
            old(data).rest(),
            final(reply).items().skip(old(reply).items().len() as int),
            r,
        ),
{
    if !may_start(internet, download_permission) {
        refuse(reply);
        return Err(());
    }
    control_tasks(data, reply, caller_uid, download_permission, query, account, send)
}

/// Whether a request that opens with an API version is let through: the
/// version is read first (a missing one fails with nothing written), then
/// `allowed` says whether the caller's permissions suffice for it.
pub open spec fn version_gate(s: Seq<ParcelItem>, allowed: spec_fn(Version) -> bool) -> Option<
    bool,
> {
    match next_u32(s) {
        None => None,
        Some(v) => Some(allowed(version_of_code(v as u8))),
    }
}

/// What a request that opens with an API version gets: nothing and a
/// failure without a version; `Permission` and a failure when the version
/// asks for a permission the caller lacks; otherwise what the batch of
/// tasks that follows gets.
pub open spec fn gated_outcome<
    Q: Fn(u32) -> Option<u64>,
    A: Fn(u64) -> bool,
    S: Fn(u64, u32) -> (bool, Option<ErrorCode>),
>(
    query: Q,
    account: A,
    send: S,
    caller_uid: u64,
    permission: bool,
    allowed: spec_fn(Version) -> bool,
    s: Seq<ParcelItem>,
    added: Seq<ParcelItem>,
    r: Result<(), ()>,
) -> bool {
    match version_gate(s, allowed) {
        None => r is Err && added == Seq::<ParcelItem>::empty(),
        Some(false) => r is Err && added == seq![ParcelItem::Code(ErrorCode::Permission)],
        Some(true) => control_outcome(
            query,
            account,
            send,
            caller_uid,
            permission,
            s.skip(1),
            added,
            r,
        ),
    }
}

/// Pauses the tasks named in `data` after its API version; API9 callers
/// need the internet permission. See `gated_outcome`.
pub fn pause<
    Q: Fn(u32) -> Option<u64>,
    A: Fn(u64) -> bool,
    S: Fn(u64, u32) -> (bool, Option<ErrorCode>),
>(
    data: &mut MsgParcel,
    reply: &mut MsgParcel,
    caller_uid: u64,
    download_permission: bool,
    internet: bool,
    query: Q,
    account: A,
    send: S,
) -> (r: Result<(), ()>)
    requires
        old(data).wf(),
        old(reply).wf(),
        forall|id: u32| query.requires((id,)),
        forall|uid: u64| account.requires((uid,)),
        forall|uid: u64, id: u32|
            version_gate(old(data).rest(), |v: Version| !(v == Version::API9 && !internet)) == Some(true) && names_task(old(data).rest().skip(1), id)
                && may_act(
                query,
                account,
                caller_uid,
                download_permission,
                uid,
                id,
            ) ==> send.requires((uid, id)),
    ensures
        final(data).wf(),
        final(reply).wf(),
        final(data).items() == old(data).items(),
        final(reply).items().len() >= old(reply).items().len(),
        final(reply).items().take(old(reply).items().len() as int) == old(reply).items(),
        gated_outcome(
            query,
            account,
            send,
            caller_uid,
            download_permission,
            |v: Version| !(v == Version::API9 && !internet),
            old(data).rest(),
            final(reply).items().skip(old(reply).items().len() as int),
            r,
        ),
        version_gate(old(data).rest(), |v: Version| !(v == Version::API9 && !internet)) is None
            ==> final(data).rest() == old(data).rest(),
        version_gate(old(data).rest(), |v: Version| !(v == Version::API9 && !internet)) == Some(false)
            ==> final(data).rest() == old(data).rest().skip(1),
{
    let version = match read_version(data) {
        Some(v) => v,
        None => {
            proof {
                lemma_nothing_written(reply.items());
            }
            return Err(());
        },
    };
    if !may_pause(version, internet) {
        refuse(reply);
        return Err(());
    }
    control_tasks(data, reply, caller_uid, download_permission, query, account, send)
}

/// Removes the tasks named in `data` after its API version; API9 callers
/// need the internet permission or the download management permission.
/// See `gated_outcome`.
pub fn remove<
    Q: Fn(u32) -> Option<u64>,
    A: Fn(u64) -> bool,
    S: Fn(u64, u32) -> (bool, Option<ErrorCode>),
>(
    data: &mut MsgParcel,
    reply: &mut MsgParcel,
    caller_uid: u64,
    download_permission: bool,
    internet: bool,
    query: Q,
    account: A,
    send: S,
) -> (r: Result<(), ()>)
    requires
        old(data).wf(),
        old(reply).wf(),
        forall|id: u32| query.requires((id,)),
        forall|uid: u64| account.requires((uid,)),
        forall|uid: u64, id: u32|
            version_gate(old(data).rest(), |v: Version| !(v == Version::API9 && !internet && !download_permission)) == Some(true) && names_task(old(data).rest().skip(1), id)
                && may_act(
                query,
                account,
                caller_uid,
                download_permission,
                uid,
                id,
            ) ==> send.requires((uid, id)),
    ensures
        final(data).wf(),
        final(reply).wf(),
        final(data).items() == old(data).items(),
        final(reply).items().len() >= old(reply).items().len(),
        final(reply).items().take(old(reply).items().len() as int) == old(reply).items(),
        gated_outcome(
            query,
            account,
            send,
            caller_uid,
            download_permission,
            |v: Version| !(v == Version::API9 && !internet && !download_permission),
            old(data).rest(),
            final(reply).items().skip(old(reply).items().len() as int),
            r,
        ),
        version_gate(old(data).rest(), |v: Version| !(v == Version::API9 && !internet && !download_permission)) is None
            ==> final(data).rest() == old(data).rest(),
        version_gate(old(data).rest(), |v: Version| !(v == Version::API9 && !internet && !download_permission)) == Some(false)
            ==> final(data).rest() == old(data).rest().skip(1),
{
    let version = match read_version(data) {
        Some(v) => v,
        None => {
            proof {
                lemma_nothing_written(reply.items());
            }
            return Err(());
        },
    };
    if !may_remove(version, internet, download_permission) {
        refuse(reply);
        return Err(());
    }
    control_tasks(data, reply, caller_uid, download_permission, query, account, send)
}

fn read_version(data: &mut MsgParcel) -> (r: Option<Version>)
    requires
        old(data).wf(),
    ensures
        final(data).wf(),
        final(data).items() == old(data).items(),
        r == match next_u32(old(data).rest()) {
            Some(v) => Some(version_of_code(v as u8)),
            None => None,
        },
        r is Some ==> final(data).rest() == old(data).rest().skip(1),
        r is None ==> final(data).rest() == old(data).rest(),
{
    match data.read_u32() {
        Some(v) => Some(Version::from(v as u8)),
        None => None,
    }
}

proof fn lemma_nothing_written(items: Seq<ParcelItem>)
    ensures
        items.take(items.len() as int) == items,
        items.skip(items.len() as int) == Seq::<ParcelItem>::empty(),
{
    assert(items.take(items.len() as int) =~= items);
    assert(items.skip(items.len() as int) =~= Seq::<ParcelItem>::empty());
}

fn refuse(reply: &mut MsgParcel)
    requires
        old(reply).wf(),
    ensures
        final(reply).wf(),
        final(reply).items() == old(reply).items().push(ParcelItem::Code(ErrorCode::Permission)),
        final(reply).items().take(old(reply).items().len() as int) == old(reply).items(),
        final(reply).items().skip(old(reply).items().len() as int) == seq![
            ParcelItem::Code(ErrorCode::Permission),
        ],
{
    reply.write_code(ErrorCode::Permission);
    proof {
        assert(reply.items().take(old(reply).items().len() as int) =~= old(reply).items());
        assert(reply.items().skip(old(reply).items().len() as int) =~= seq![
            ParcelItem::Code(ErrorCode::Permission),
        ]);
    }
}

/// The number a value holds, or zero for a value of another type.
pub open spec fn i64_of(x: ParcelItem) -> i64 {
    match x {
        ParcelItem::I64(v) => v,
        _ => 0,
    }
}

/// Whether entry `i` of a speed-limit request is a task id text followed
/// by a speed.
pub open spec fn speed_entry_ok(s: Seq<ParcelItem>, i: int) -> bool {
    2 * i + 1 < s.len() && s[2 * i] is Str && s[2 * i + 1] is I64
}

/// Who a speed limit applies to, from the owner found for the task: with
/// the management permission, that owner; without it, the caller, who must
/// be the owner.
pub open spec fn limit_owner(permission: bool, found: Option<u64>, caller_uid: u64) -> Option<
    u64,
> {
    if permission {
        found
    } else if found == Some(caller_uid) {
        Some(caller_uid)
    } else {
        None
    }
}

/// Whether `code` can answer for one task of a speed-limit request: a
/// speed under the least limit fails its check; a text that is no task id
/// is not found; then the owner is looked up (`query`) and the limit is
/// set for it (see `limit_owner`) when there is one, the answer being that
/// of the task manager (`send`, see `answer_code`); otherwise the task is
/// not found.
pub open spec fn speed_answer<
    Q: Fn(u32) -> Option<u64>,
    S: Fn(u64, u32, i64) -> (bool, Option<ErrorCode>),
>(
    query: Q,
    send: S,
    caller_uid: u64,
    permission: bool,
    id_text: Seq<char>,
    max_speed: i64,
    code: ErrorCode,
) -> bool {
    if max_speed < MIN_SPEED_LIMIT {
        code == ErrorCode::ParameterCheck
    } else {
        match task_id_of(id_text) {
            None => code == ErrorCode::TaskNotFound,
            Some(id) => exists|found: Option<u64>|
                #[trigger] query.ensures((id,), found) && match limit_owner(
                    permission,
                    found,
                    caller_uid,
                ) {
                    None => code == ErrorCode::TaskNotFound,
                    Some(uid) => exists|answer: (bool, Option<ErrorCode>)|
                        #[trigger] send.ensures((uid, id, max_speed), answer) && code
                            == answer_code(answer),
                },
        }
    }
}

/// Whether the task manager may be asked to limit task `id` of `uid` to
/// `speed`: the speed reaches the least limit, and a lookup of the task's
/// owner (`query`) gave an owner the limit applies to (`limit_owner`).
pub open spec fn may_limit<Q: Fn(u32) -> Option<u64>>(
    query: Q,
    caller_uid: u64,
    permission: bool,
    uid: u64,
    id: u32,
    speed: i64,
) -> bool {
    speed >= MIN_SPEED_LIMIT && exists|found: Option<u64>|
        #[trigger] query.ensures((id,), found) && limit_owner(permission, found, caller_uid) == Some(
            uid,
        )
}

/// Whether entry `i` of the speed limits in `t` names task `id` with
/// `speed`.
pub open spec fn entry_names(t: Seq<ParcelItem>, i: int, id: u32, speed: i64) -> bool {
    task_id_of(text_of(t[2 * i])) == Some(id) && i64_of(t[2 * i + 1]) == speed
}

/// Whether a speed-limit request read from the front of `s` names task
/// `id` with `speed`: its count is within the limit and one of the entries
/// that follow it is that task with that speed.
pub open spec fn names_limit(s: Seq<ParcelItem>, id: u32, speed: i64) -> bool {
    &&& next_u32(s) matches Some(n) && n <= CONTROL_MAX
    &&& exists|i: int| 0 <= i < next_u32(s)->0 && #[trigger] entry_names(s.skip(1), i, id, speed)
}

/// What a speed-limit request read from the front of `s` gets: the count
/// of tasks, then for each its id and speed. A missing count, or an entry
/// that is missing or of other types, fails with nothing written; a count
/// over the limit fails with `Other`; otherwise success is written, then
/// for each task an answer that `speed_answer` allows.
pub open spec fn speed_outcome<
    Q: Fn(u32) -> Option<u64>,
    S: Fn(u64, u32, i64) -> (bool, Option<ErrorCode>),
>(
    query: Q,
    send: S,
    caller_uid: u64,
    permission: bool,
    s: Seq<ParcelItem>,
    added: Seq<ParcelItem>,
    r: Result<(), ()>,
) -> bool {
    match next_u32(s) {
        None => r is Err && added == Seq::<ParcelItem>::empty(),
        Some(n) => if n > CONTROL_MAX {
            r is Err && added == seq![ParcelItem::Code(ErrorCode::Other)]
        } else if !(forall|i: int| 0 <= i < n ==> #[trigger] speed_entry_ok(s.skip(1), i)) {
            r is Err && added == Seq::<ParcelItem>::empty()
        } else {
            &&& r is Ok
            &&& added.len() == n + 1
            &&& added[0] == ParcelItem::Code(ErrorCode::ErrOk)
            &&& forall|i: int|
                0 <= i < n ==> (#[trigger] added.skip(1)[i] matches ParcelItem::Code(c)
                    && speed_answer(
                    query,
                    send,
                    caller_uid,
                    permission,
                    text_of(s.skip(1)[2 * i]),
                    i64_of(s.skip(1)[2 * i + 1]),
                    c,
                ))
        },
    }
}

proof fn lemma_codes_written(codes: Seq<ErrorCode>)
    ensures
        ({
            let added = seq![ParcelItem::Code(ErrorCode::ErrOk)] + codes_items(codes);
            &&& added.len() == codes.len() + 1
            &&& added[0] == ParcelItem::Code(ErrorCode::ErrOk)
            &&& forall|i: int|
                0 <= i < codes.len() ==> #[trigger] added.skip(1)[i] == ParcelItem::Code(codes[i])
        }),
{
    let added = seq![ParcelItem::Code(ErrorCode::ErrOk)] + codes_items(codes);
    assert(added.skip(1) =~= codes_items(codes));
}

fn write_answers(reply: &mut MsgParcel, answers: &Vec<ErrorCode>)
    requires
        old(reply).wf(),
    ensures
        final(reply).wf(),
        final(reply).items() == old(reply).items() + seq![ParcelItem::Code(ErrorCode::ErrOk)]
            + codes_items(answers@),
{
    reply.write_code(ErrorCode::ErrOk);
    let ghost opened = reply.items();
    let mut k: usize = 0;
    while k < answers.len()
        invariant
            reply.wf(),
            k <= answers@.len(),
            opened == old(reply).items().push(ParcelItem::Code(ErrorCode::ErrOk)),
            reply.items() == opened + codes_items(answers@.take(k as int)),
        decreases answers@.len() - k,
    {
        reply.write_code(answers[k]);
        proof {
            assert(answers@.take(k + 1) =~= answers@.take(k as int).push(answers@[k as int]));
            assert(codes_items(answers@.take(k + 1)) =~= codes_items(answers@.take(k as int)).push(
                ParcelItem::Code(answers@[k as int]),
            ));
        }
        k = k + 1;
    }
    proof {
        assert(answers@.take(answers@.len() as int) =~= answers@);
        assert(reply.items() =~= old(reply).items() + seq![ParcelItem::Code(ErrorCode::ErrOk)]
            + codes_items(answers@));
    }
}

/// Sets the speed limits of the tasks named in `data`; see
/// `speed_outcome`. The task manager (`send`) is asked only for a task and
/// speed the batch names (`names_limit`), as `may_limit` allows.
pub fn set_max_speed<
    Q: Fn(u32) -> Option<u64>,
    S: Fn(u64, u32, i64) -> (bool, Option<ErrorCode>),
>(
    data: &mut MsgParcel,
    reply: &mut MsgParcel,
    caller_uid: u64,
    permission: bool,
    query: Q,
    send: S,
) -> (r: Result<(), ()>)
    requires
        old(data).wf(),
        old(reply).wf(),
        forall|id: u32| query.requires((id,)),
        forall|uid: u64, id: u32, speed: i64|
            #![trigger send.requires((uid, id, speed))]
            names_limit(old(data).rest(), id, speed) && may_limit(
                query,
                caller_uid,
                permission,
                uid,
                id,
                speed,
            ) ==> send.requires((uid, id, speed)),
    ensures
        final(data).wf(),
        final(reply).wf(),
        final(data).items() == old(data).items(),
        final(reply).items().len() >= old(reply).items().len(),
        final(reply).items().take(old(reply).items().len() as int) == old(reply).items(),
        speed_outcome(
            query,
            send,
            caller_uid,
            permission,
            old(data).rest(),
            final(reply).items().skip(old(reply).items().len() as int),
            r,
        ),
        next_u32(old(data).rest()) matches Some(n) && n > CONTROL_MAX ==> final(data).rest()
            == old(data).rest().skip(1),
{
    let ghost s = data.rest();
    let ghost before = reply.items();
    let n = match data.read_u32() {
        Some(n) => n,
        None => {
            proof {
                lemma_nothing_written(before);
            }
            return Err(());
        },
    };
    let len = n as usize;
    let mut answers = match start_batch(len, CONTROL_MAX) {
        Some(v) => v,
        None => {
            reply.write_code(ErrorCode::Other);
            proof {
                assert(reply.items().skip(before.len() as int) =~= seq![
                    ParcelItem::Code(ErrorCode::Other),
                ]);
                assert(reply.items().take(before.len() as int) =~= before);
            }
            return Err(());
        },
    };
    let ghost t = s.skip(1);
    let mut i: usize = 0;
    while i < len
        invariant
            data.wf(),
            reply.wf(),
            reply.items() == before,
            before == old(reply).items(),
            data.items() == old(data).items(),
            t == s.skip(1),
            s == old(data).rest(),
            len == n,
            n <= CONTROL_MAX,
            next_u32(s) == Some(n),
            i <= len,
            2 * i <= t.len(),
            answers@.len() == len,
            data.rest() == t.skip(2 * i),
            forall|j: int| 0 <= j < i ==> #[trigger] speed_entry_ok(t, j),
            forall|j: int|
                0 <= j < i ==> speed_answer(
                    query,
                    send,
                    caller_uid,
                    permission,
                    text_of(t[2 * j]),
                    i64_of(t[2 * j + 1]),
                    #[trigger] answers@[j],
                ),
            forall|id: u32| query.requires((id,)),
            forall|uid: u64, id: u32, speed: i64|
                #![trigger send.requires((uid, id, speed))]
                names_limit(s, id, speed) && may_limit(query, caller_uid, permission, uid, id, speed)
                    ==> send.requires((uid, id, speed)),
        decreases len - i,
    {
        let ghost here = data.rest();
        let text = match data.read_string() {
            Some(text) => text,
            None => {
                proof {
                    if 2 * i < t.len() {
                        assert(here[0] == t[2 * i]);
                    }
                    assert(!speed_entry_ok(t, i as int));
                    lemma_nothing_written(before);
                }
                return Err(());
            },
        };
        let max_speed = match data.read_i64() {
            Some(v) => v,
            None => {
                proof {
                    if 2 * i + 1 < t.len() {
                        assert(here.skip(1)[0] == t[2 * i + 1]);
                    }
                    assert(!speed_entry_ok(t, i as int));
                    lemma_nothing_written(before);
                }
                return Err(());
            },
        };
        proof {
            assert(here[0] == t[2 * i]);
            assert(here.skip(1)[0] == t[2 * i + 1]);
            assert(here.skip(1).skip(1) =~= t.skip(2 * i + 2));
            assert(speed_entry_ok(t, i as int));
        }
        let code = if max_speed < MIN_SPEED_LIMIT {
            ErrorCode::ParameterCheck
        } else {
            match parse_task_id(text.as_str()) {
                None => ErrorCode::TaskNotFound,
                Some(id) => {
                    let found = query(id);
                    match speed_limit_owner(permission, found, caller_uid) {
                        Err(e) => e,
                        Ok(uid) => {
                            proof {
                                assert(query.ensures((id,), found));
                                assert(may_limit(query, caller_uid, permission, uid, id, max_speed));
                                assert(entry_names(t, i as int, id, max_speed));
                                assert(names_limit(s, id, max_speed));
                            }
                            let answer = send(uid, id, max_speed);
                            proof {
                                assert(send.ensures((uid, id, max_speed), answer));
                            }
                            manager_answer(answer.0, answer.1)
                        },
                    }
                },
            }
        };
        set_code_with_index(&mut answers, i, code);
        i = i + 1;
    }
    write_answers(reply, &answers);
    proof {
        lemma_codes_written(answers@);
        assert(reply.items().skip(before.len() as int) =~= seq![
            ParcelItem::Code(ErrorCode::ErrOk),
        ] + codes_items(answers@));
        assert(reply.items().take(before.len() as int) =~= before);
    }
    Ok(())
}

/// Whether the task manager may be asked to change task `id` of `uid` to
/// `mode`: the caller may manage downloads, a lookup of the task's mode
/// (`query_mode`) found one that differs from `mode`, which is not the
/// wildcard, and a lookup of its owner (`query_uid`) gave `uid`.
pub open spec fn may_change_mode<M: Fn(u32) -> Option<Mode>, Q: Fn(u32) -> Option<u64>>(
    query_mode: M,
    query_uid: Q,
    permission: bool,
    uid: u64,
    id: u32,
    mode: Mode,
) -> bool {
    &&& permission
    &&& mode != Mode::Any
    &&& exists|o: Mode| #[trigger] query_mode.ensures((id,), Some(o)) && o != mode
    &&& query_uid.ensures((id,), Some(uid))
}

/// Whether a request to change a task's mode, read from the front of `s`,
/// names task `id` and `mode`.
pub open spec fn names_mode(s: Seq<ParcelItem>, id: u32, mode: Mode) -> bool {
    &&& next_str(s) matches Some(t) && task_id_of(t) == Some(id)
    &&& next_u32(s.skip(1)) matches Some(v) && mode_of_code(v as u8) == mode
}

/// What a request to change a task's mode, read from the front of `s`,
/// gets. It needs the download management permission (else `Permission`).
/// The task id comes first: a missing one fails with nothing written, one
/// that is no number with `TaskNotFound`; then the mode, whose absence
/// fails with nothing written. A task whose mode is not found
/// (`query_mode`) is not found; a mode that stays, or the wildcard, is
/// success with nothing to do; otherwise the owner is looked up
/// (`query_uid`, none: not found) and the task manager asked (`send`): its
/// answer is written, and the request succeeds when it gave one.
pub open spec fn mode_outcome<
    M: Fn(u32) -> Option<Mode>,
    Q: Fn(u32) -> Option<u64>,
    S: Fn(u64, u32, Mode) -> (bool, Option<ErrorCode>),
>(
    query_mode: M,
    query_uid: Q,
    send: S,
    permission: bool,
    s: Seq<ParcelItem>,
    added: Seq<ParcelItem>,
    r: Result<(), ()>,
) -> bool {
    if !permission {
        r is Err && added == seq![ParcelItem::Code(ErrorCode::Permission)]
    } else {
        match next_str(s) {
            None => r is Err && added == Seq::<ParcelItem>::empty(),
            Some(text) => match task_id_of(text) {
                None => r is Err && added == seq![ParcelItem::Code(ErrorCode::TaskNotFound)],
                Some(id) => match next_u32(s.skip(1)) {
                    None => r is Err && added == Seq::<ParcelItem>::empty(),
                    Some(m) => {
                        let mode = mode_of_code(m as u8);
                        exists|old_mode: Option<Mode>|
                            #[trigger] query_mode.ensures((id,), old_mode) && match old_mode {
                                None => r is Err && added == seq![
                                    ParcelItem::Code(ErrorCode::TaskNotFound),
                                ],
                                Some(o) => if o == mode || mode == Mode::Any {
                                    r is Ok && added == seq![ParcelItem::Code(ErrorCode::ErrOk)]
                                } else {
                                    exists|found: Option<u64>|
                                        #[trigger] query_uid.ensures((id,), found) && match found {
                                            None => r is Err && added == seq![
                                                ParcelItem::Code(ErrorCode::TaskNotFound),
                                            ],
                                            Some(uid) => exists|answer: (bool, Option<ErrorCode>)|
                                                #[trigger] send.ensures((uid, id, mode), answer) && (
                                                r is Ok <==> (answer.0 && answer.1 is Some)) && added
                                                    == seq![ParcelItem::Code(answer_code(answer))],
                                        }
                                },
                            }
                    },
                },
            },
        }
    }
}

fn answer_one(reply: &mut MsgParcel, code: ErrorCode)
    requires
        old(reply).wf(),
    ensures
        final(reply).wf(),
        final(reply).items() == old(reply).items().push(ParcelItem::Code(code)),
        final(reply).items().take(old(reply).items().len() as int) == old(reply).items(),
        final(reply).items().skip(old(reply).items().len() as int) == seq![ParcelItem::Code(code)],
{
    reply.write_code(code);
    proof {
        assert(reply.items().take(old(reply).items().len() as int) =~= old(reply).items());
        assert(reply.items().skip(old(reply).items().len() as int) =~= seq![
            ParcelItem::Code(code),
        ]);
    }
}

/// Changes the mode of the task named in `data`; see `mode_outcome`. The
/// task manager (`send`) is asked only for the task and mode named
/// (`names_mode`), as `may_change_mode` allows: never when the mode
/// stays or is the wildcard.
pub fn set_mode<
    M: Fn(u32) -> Option<Mode>,
    Q: Fn(u32) -> Option<u64>,
    S: Fn(u64, u32, Mode) -> (bool, Option<ErrorCode>),
>(
    data: &mut MsgParcel,
    reply: &mut MsgParcel,
    permission: bool,
    query_mode: M,
    query_uid: Q,
    send: S,
) -> (r: Result<(), ()>)
    requires
        old(data).wf(),
        old(reply).wf(),
        forall|id: u32| query_mode.requires((id,)),
        forall|id: u32| query_uid.requires((id,)),
        forall|uid: u64, id: u32, mode: Mode|
            #![trigger send.requires((uid, id, mode))]
            names_mode(old(data).rest(), id, mode) && may_change_mode(
                query_mode,
                query_uid,
                permission,
                uid,
                id,
                mode,
            ) ==> send.requires((uid, id, mode)),
    ensures
        final(data).wf(),
        final(reply).wf(),
        final(data).items() == old(data).items(),
        final(reply).items().len() >= old(reply).items().len(),
        final(reply).items().take(old(reply).items().len() as int) == old(reply).items(),
        mode_outcome(
            query_mode,
            query_uid,
            send,
            permission,
            old(data).rest(),
            final(reply).items().skip(old(reply).items().len() as int),
            r,
        ),
{
    let ghost s = data.rest();
    if !permission {
        answer_one(reply, ErrorCode::Permission);
        return Err(());
    }
    let text = match data.read_string() {
        Some(text) => text,
        None => {
            proof {
                lemma_nothing_written(reply.items());
            }
            return Err(());
        },
    };
    let id = match parse_task_id(text.as_str()) {
        Some(id) => id,
        None => {
            answer_one(reply, ErrorCode::TaskNotFound);
            return Err(());
        },
    };
    let m = match data.read_u32() {
        Some(m) => m,
        None => {
            proof {
                lemma_nothing_written(reply.items());
            }
            return Err(());
        },
    };
    let mode = Mode::from(m as u8);
    let old_mode = query_mode(id);
    let o = match old_mode {
        Some(o) => o,
        None => {
            answer_one(reply, ErrorCode::TaskNotFound);
            return Err(());
        },
    };
    if !mode_change_needed(o, mode) {
        answer_one(reply, ErrorCode::ErrOk);
        return Ok(());
    }
    let found = query_uid(id);
    let uid = match found {
        Some(uid) => uid,
        None => {
            answer_one(reply, ErrorCode::TaskNotFound);
            return Err(());
        },
    };
    proof {
        assert(query_mode.ensures((id,), old_mode));
        assert(query_uid.ensures((id,), found));
        assert(may_change_mode(query_mode, query_uid, permission, uid, id, mode));
        assert(names_mode(s, id, mode));
    }
    let answer = send(uid, id, mode);
    proof {
        assert(query_mode.ensures((id,), old_mode));
        assert(query_uid.ensures((id,), found));
        assert(send.ensures((uid, id, mode), answer));
    }
    answer_one(reply, manager_answer(answer.0, answer.1));
    if answer.0 && answer.1.is_some() {
        Ok(())
    } else {
        Err(())
    }
}

} // verus!
