//! The requests that hand back what is known of a batch of tasks: `touch`
//! (each task with the token it was created with), `show` (each task of
//! the caller) and `query` (any task of the current account, for a system
//! application with the management permission).
//!
//! Each names its tasks after their count, which may not pass
//! `GET_INFO_MAX`. A task id that is no number, a task that is not found
//! or not of the current account, or another's task without the download
//! management permission, is answered `TaskNotFound`; the others are asked
//! of the task manager (`fetch`), and what it hands back is answered with
//! success, none with `TaskNotFound`. The caller writes success, then each
//! answer's code and what came with it.

use vstd::prelude::*;

use crate::command::{parse_task_id, task_id_of, GET_INFO_MAX};
use crate::control::{may_act, text_of};
use crate::error::ErrorCode;
use crate::notification_bar::notification_config::opt_view;
use crate::parcel::{next_u32, MsgParcel, ParcelItem};
use crate::config::Action;

verus! {

/// How many values entry `i` starts after: two per entry with a token, one
/// without.
pub open spec fn entry_start(i: int, with_token: bool) -> int {
    if with_token {
        2 * i
    } else {
        i
    }
}

/// Whether entry `i` of `t` is there to be read: a task id text, and a
/// token text after it when entries carry one.
pub open spec fn entry_ok(t: Seq<ParcelItem>, i: int, with_token: bool) -> bool {
    let k = entry_start(i, with_token);
    &&& 0 <= k < t.len()
    &&& t[k] is Str
    &&& with_token ==> k + 1 < t.len() && t[k + 1] is Str
}

/// The task id text of entry `i` of `t`.
pub open spec fn entry_id(t: Seq<ParcelItem>, i: int, with_token: bool) -> Seq<char> {
    text_of(t[entry_start(i, with_token)])
}

/// The token of entry `i` of `t`, when entries carry one.
pub open spec fn entry_token(t: Seq<ParcelItem>, i: int, with_token: bool) -> Option<Seq<char>> {
    if with_token {
        Some(text_of(t[entry_start(i, with_token) + 1]))
    } else {
        None
    }
}

/// Whether `answer` answers the task named by `id_text` (with `token`): a
/// text that is no number, a task whose owner a lookup (`query`) does not
/// find, an owner outside the current account (`account`), or another's
/// task without `permission`, is `TaskNotFound` with nothing; otherwise
/// the task manager is asked (`fetch`) with the owner, the task and the
/// token, and what it hands back comes with success, none with
/// `TaskNotFound`.
pub open spec fn info_answer<
    T,
    Q: Fn(u32) -> Option<u64>,
    A: Fn(u64) -> bool,
    F: Fn(u64, u32, Option<String>) -> Option<T>,
>(
    query: Q,
    account: A,
    fetch: F,
    caller_uid: u64,
    permission: bool,
    id_text: Seq<char>,
    token: Option<Seq<char>>,
    answer: (ErrorCode, Option<T>),
) -> bool {
    match task_id_of(id_text) {
        None => answer == (ErrorCode::TaskNotFound, None::<T>),
        Some(id) => exists|found: Option<u64>|
            #[trigger] query.ensures((id,), found) && match found {
                None => answer == (ErrorCode::TaskNotFound, None::<T>),
                Some(uid) => exists|current: bool|
                    #[trigger] account.ensures((uid,), current) && if !current || (uid != caller_uid
                        && !permission) {
                        answer == (ErrorCode::TaskNotFound, None::<T>)
                    } else {
                        exists|t: Option<String>, got: Option<T>|
                            opt_view(t) == token && #[trigger] fetch.ensures((uid, id, t), got)
                                && answer == match got {
                                Some(info) => (ErrorCode::ErrOk, Some(info)),
                                None => (ErrorCode::TaskNotFound, None::<T>),
                            }
                    },
            },
    }
}

/// What a batch read from the front of `s` gets: a missing count fails
/// with nothing to write (`Err(None)`), a count over `GET_INFO_MAX` fails
/// with `Other`; an entry that is missing or of other types fails with
/// nothing to write; otherwise an answer per entry, in order, as
/// `info_answer` allows.
pub open spec fn info_outcome<
    T,
    Q: Fn(u32) -> Option<u64>,
    A: Fn(u64) -> bool,
    F: Fn(u64, u32, Option<String>) -> Option<T>,
>(
    query: Q,
    account: A,
    fetch: F,
    caller_uid: u64,
    permission: bool,
    with_token: bool,
    s: Seq<ParcelItem>,
    r: Result<Vec<(ErrorCode, Option<T>)>, Option<ErrorCode>>,
) -> bool {
    match next_u32(s) {
        None => r matches Err(e) && e is None,
        Some(n) => if n > GET_INFO_MAX {
            r matches Err(e) && e == Some(ErrorCode::Other)
        } else if !(forall|i: int| 0 <= i < n ==> #[trigger] entry_ok(s.skip(1), i, with_token)) {
            r matches Err(e) && e is None
        } else {
            r matches Ok(v) && v@.len() == n && forall|i: int|
                0 <= i < n ==> info_answer(
                    query,
                    account,
                    fetch,
                    caller_uid,
                    permission,
                    entry_id(s.skip(1), i, with_token),
                    entry_token(s.skip(1), i, with_token),
                    #[trigger] v@[i],
                )
        },
    }
}

/// Whether the task manager may be asked about task `id` of `uid` in a
/// batch read from the front of `s`: the batch is within the limit, and
/// the caller may act on the task (`may_act`).
pub open spec fn may_fetch<Q: Fn(u32) -> Option<u64>, A: Fn(u64) -> bool>(
    s: Seq<ParcelItem>,
    query: Q,
    account: A,
    caller_uid: u64,
    permission: bool,
    uid: u64,
    id: u32,
) -> bool {
    &&& next_u32(s) matches Some(n) && n <= GET_INFO_MAX
    &&& may_act(query, account, caller_uid, permission, uid, id)
}

fn answer_info<
    T,
    Q: Fn(u32) -> Option<u64>,
    A: Fn(u64) -> bool,
    F: Fn(u64, u32, Option<String>) -> Option<T>,
>(
    text: &String,
    token: Option<String>,
    caller_uid: u64,
    permission: bool,
    query: &Q,
    account: &A,
    fetch: &F,
    Ghost(s): Ghost<Seq<ParcelItem>>,
) -> (r: (ErrorCode, Option<T>))
    requires
        forall|id: u32| query.requires((id,)),
        forall|uid: u64| account.requires((uid,)),
        next_u32(s) matches Some(n) && n <= GET_INFO_MAX,
        forall|uid: u64, id: u32, t: Option<String>|
            #![trigger fetch.requires((uid, id, t))]
            may_fetch(s, *query, *account, caller_uid, permission, uid, id) ==> fetch.requires(
                (uid, id, t),
            ),
    ensures
        info_answer(
            *query,
            *account,
            *fetch,
            caller_uid,
            permission,
            text@,
            opt_view(token),
            r,
        ),
{
    let id = match parse_task_id(text.as_str()) {
        Some(id) => id,
        None => return (ErrorCode::TaskNotFound, None),
    };
    let found = query(id);
    proof {
        assert(query.ensures((id,), found));
    }
    let uid = match found {
        Some(uid) => uid,
        None => return (ErrorCode::TaskNotFound, None),
    };
    let current = account(uid);
    proof {
        assert(account.ensures((uid,), current));
    }
    if !current || (uid != caller_uid && !permission) {
        return (ErrorCode::TaskNotFound, None);
    }
    let ghost t = token;
    proof {
        assert(may_fetch(s, *query, *account, caller_uid, permission, uid, id));
    }
    let got = fetch(uid, id, token);
    proof {
        assert(fetch.ensures((uid, id, t), got));
    }
    match got {
        Some(info) => (ErrorCode::ErrOk, Some(info)),
        None => (ErrorCode::TaskNotFound, None),
    }
}

/// Answers a batch of tasks read from `data` (their count, then each task
/// id, with its token when `with_token`); see `info_outcome`. The task
/// manager is asked only as `may_fetch` allows.
pub fn info_tasks<
    T,
    Q: Fn(u32) -> Option<u64>,
    A: Fn(u64) -> bool,
    F: Fn(u64, u32, Option<String>) -> Option<T>,
>(
    data: &mut MsgParcel,
    caller_uid: u64,
    permission: bool,
    with_token: bool,
    query: Q,
    account: A,
    fetch: F,
) -> (r: Result<Vec<(ErrorCode, Option<T>)>, Option<ErrorCode>>)
    requires
        old(data).wf(),
        forall|id: u32| query.requires((id,)),
        forall|uid: u64| account.requires((uid,)),
        forall|uid: u64, id: u32, t: Option<String>|
            #![trigger fetch.requires((uid, id, t))]
            may_fetch(old(data).rest(), query, account, caller_uid, permission, uid, id)
                ==> fetch.requires((uid, id, t)),
    ensures
        final(data).wf(),
        final(data).items() == old(data).items(),
        info_outcome(query, account, fetch, caller_uid, permission, with_token, old(data).rest(), r),
        next_u32(old(data).rest()) matches Some(n) && n > GET_INFO_MAX ==> final(data).rest()
            == old(data).rest().skip(1),
{
    let ghost s = data.rest();
    let n = match data.read_u32() {
        Some(n) => n,
        None => return Err(None),
    };
    if n as usize > GET_INFO_MAX {
        return Err(Some(ErrorCode::Other));
    }
    let ghost t = s.skip(1);
    let mut answers: Vec<(ErrorCode, Option<T>)> = Vec::new();
    let mut i: u32 = 0;
    while i < n
        invariant
            data.wf(),
            data.items() == old(data).items(),
            s == old(data).rest(),
            t == s.skip(1),
            next_u32(s) == Some(n),
            n <= GET_INFO_MAX,
            i <= n,
            0 <= entry_start(i as int, with_token) <= t.len(),
            data.rest() == t.skip(entry_start(i as int, with_token)),
            answers@.len() == i,
            forall|j: int| 0 <= j < i ==> #[trigger] entry_ok(t, j, with_token),
            forall|j: int|
                0 <= j < i ==> info_answer(
                    query,
                    account,
                    fetch,
                    caller_uid,
                    permission,
                    entry_id(t, j, with_token),
                    entry_token(t, j, with_token),
                    #[trigger] answers@[j],
                ),
            forall|id: u32| query.requires((id,)),
            forall|uid: u64| account.requires((uid,)),
            forall|uid: u64, id: u32, tk: Option<String>|
                #![trigger fetch.requires((uid, id, tk))]
                may_fetch(s, query, account, caller_uid, permission, uid, id) ==> fetch.requires(
                    (uid, id, tk),
                ),
        decreases n - i,
    {
        let ghost here = data.rest();
        let ghost k = entry_start(i as int, with_token);
        let text = match data.read_string() {
            Some(text) => text,
            None => {
                proof {
                    if k < t.len() {
                        assert(here[0] == t[k]);
                    }
                    assert(!entry_ok(t, i as int, with_token));
                }
                return Err(None);
            },
        };
        proof {
            assert(here[0] == t[k]);
            assert(here.skip(1) =~= t.skip(k + 1));
        }
        let token = if with_token {
            let ghost there = data.rest();
            match data.read_string() {
                Some(token) => {
                    proof {
                        assert(there[0] == t[k + 1]);
                        assert(there.skip(1) =~= t.skip(k + 2));
                    }
                    Some(token)
                },
                None => {
                    proof {
                        if k + 1 < t.len() {
                            assert(there[0] == t[k + 1]);
                        }
                        assert(!entry_ok(t, i as int, with_token));
                    }
                    return Err(None);
                },
            }
        } else {
            None
        };
        proof {
            assert(entry_ok(t, i as int, with_token));
            assert(text@ == entry_id(t, i as int, with_token));
            assert(opt_view(token) == entry_token(t, i as int, with_token));
        }
        let answer = answer_info(
            &text,
            token,
            caller_uid,
            permission,
            &query,
            &account,
            &fetch,
            Ghost(s),
        );
        let ghost prior = answers@;
        answers.push(answer);
        proof {
            assert forall|j: int| 0 <= j < i + 1 implies info_answer(
                query,
                account,
                fetch,
                caller_uid,
                permission,
                entry_id(t, j, with_token),
                entry_token(t, j, with_token),
                #[trigger] answers@[j],
            ) by {
                if j < i {
                    assert(answers@[j] == prior[j]);
                }
            }
        }
        i = i + 1;
    }
    Ok(answers)
}

/// Hands back what the task manager knows of each task named in `data`
/// with its token; see `info_outcome`. Another's task needs the download
/// management permission.
pub fn touch<
    T,
    Q: Fn(u32) -> Option<u64>,
    A: Fn(u64) -> bool,
    F: Fn(u64, u32, Option<String>) -> Option<T>,
>(
    data: &mut MsgParcel,
    caller_uid: u64,
    download_permission: bool,
    query: Q,
    account: A,
    fetch: F,
) -> (r: Result<Vec<(ErrorCode, Option<T>)>, Option<ErrorCode>>)
    requires
        old(data).wf(),
        forall|id: u32| query.requires((id,)),
        forall|uid: u64| account.requires((uid,)),
        forall|uid: u64, id: u32, t: Option<String>|
            #![trigger fetch.requires((uid, id, t))]
            may_fetch(old(data).rest(), query, account, caller_uid, download_permission, uid, id)
                ==> fetch.requires((uid, id, t)),
    ensures
        final(data).wf(),
        final(data).items() == old(data).items(),
        info_outcome(
            query,
            account,
            fetch,
            caller_uid,
            download_permission,
            true,
            old(data).rest(),
            r,
        ),
{
    info_tasks(data, caller_uid, download_permission, true, query, account, fetch)
}

/// Hands back what the task manager knows of each task named in `data`;
/// see `info_outcome`. Another's task needs the download management
/// permission.
pub fn show<
    T,
    Q: Fn(u32) -> Option<u64>,
    A: Fn(u64) -> bool,
    F: Fn(u64, u32, Option<String>) -> Option<T>,
>(
    data: &mut MsgParcel,
    caller_uid: u64,
    download_permission: bool,
    query: Q,
    account: A,
    fetch: F,
) -> (r: Result<Vec<(ErrorCode, Option<T>)>, Option<ErrorCode>>)
    requires
        old(data).wf(),
        forall|id: u32| query.requires((id,)),
        forall|uid: u64| account.requires((uid,)),
        forall|uid: u64, id: u32, t: Option<String>|
            #![trigger fetch.requires((uid, id, t))]
            may_fetch(old(data).rest(), query, account, caller_uid, download_permission, uid, id)
                ==> fetch.requires((uid, id, t)),
    ensures
        final(data).wf(),
        final(data).items() == old(data).items(),
        info_outcome(
            query,
            account,
            fetch,
            caller_uid,
            download_permission,
            false,
            old(data).rest(),
            r,
        ),
{
    info_tasks(data, caller_uid, download_permission, false, query, account, fetch)
}

/// Hands back what the task manager knows of each task of the current
/// account named in `data`, whoever owns it, for a system application
/// (else `SystemApi`) whose management permission covers an action (else
/// `Permission`); `fetch` asks the task manager with that action. See
/// `info_outcome`.
pub fn query<
    T,
    Q: Fn(u32) -> Option<u64>,
    A: Fn(u64) -> bool,
    F: Fn(u64, u32, Option<String>) -> Option<T>,
>(
    data: &mut MsgParcel,
    is_system_api: bool,
    action: Option<Action>,
    query_uid: Q,
    account: A,
    fetch: F,
) -> (r: Result<Vec<(ErrorCode, Option<T>)>, Option<ErrorCode>>)
    requires
        old(data).wf(),
        forall|id: u32| query_uid.requires((id,)),
        forall|uid: u64| account.requires((uid,)),
        forall|uid: u64, id: u32, t: Option<String>|
            #![trigger fetch.requires((uid, id, t))]
            is_system_api && action is Some && may_fetch(
                old(data).rest(),
                query_uid,
                account,
                0,
                true,
                uid,
                id,
            ) ==> fetch.requires((uid, id, t)),
    ensures
        final(data).wf(),
        final(data).items() == old(data).items(),
        !is_system_api ==> (r matches Err(e) && e == Some(ErrorCode::SystemApi))
            && final(data).rest() == old(data).rest(),
        is_system_api && action is None ==> (r matches Err(e) && e == Some(ErrorCode::Permission))
            && final(data).rest() == old(data).rest(),
        is_system_api && action is Some ==> info_outcome(
            query_uid,
            account,
            fetch,
            0,
            true,
            false,
            old(data).rest(),
            r,
        ),
{
    if !is_system_api {
        return Err(Some(ErrorCode::SystemApi));
    }
    if action.is_none() {
        return Err(Some(ErrorCode::Permission));
    }
    info_tasks(data, 0, true, false, query_uid, account, fetch)
}

} // verus!
