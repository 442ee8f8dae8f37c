//! The requests that hand what is known of a task back to its owner: its
//! configuration (subscribing the caller to the task), and the MIME type
//! of what it downloads.

use vstd::prelude::*;

use crate::command::{parse_task_id, task_id_of};
use crate::config::TaskConfig;
use crate::error::ErrorCode;
use crate::parcel::{listed_config_items, next_str, serialize_task_config, MsgParcel, ParcelItem};
use crate::subscribe::names_id;
use crate::utils::pair_texts;

verus! {

/// A task configuration with its headers and extras as pairs.
pub type ListedConfig = (TaskConfig, Vec<(String, String)>, Vec<(String, String)>);

/// What a request for a task's configuration, read from the front of `s`,
/// gets. The task id comes first: a missing one fails with nothing
/// written, one that is no number with `TaskNotFound`; so does a task
/// whose owner (`query_uid`) is not the caller. Then the token: a missing
/// one fails with nothing written. A task that `config_of` does not find
/// for that token is not found; otherwise the caller is subscribed to the
/// task (`subscribe`), and its answer is written, then the configuration.
pub open spec fn get_task_outcome<
    Q: Fn(u32) -> Option<u64>,
    G: Fn(u32, String) -> Option<ListedConfig>,
    B: Fn(u32) -> ErrorCode,
>(
    query_uid: Q,
    config_of: G,
    subscribe: B,
    caller_uid: u64,
    s: Seq<ParcelItem>,
    added: Seq<ParcelItem>,
    r: Result<(), ()>,
) -> bool {
    match next_str(s) {
        None => r is Err && added == Seq::<ParcelItem>::empty(),
        Some(text) => match task_id_of(text) {
            None => r is Err && added == seq![ParcelItem::Code(ErrorCode::TaskNotFound)],
            Some(id) => exists|found: Option<u64>|
                #[trigger] query_uid.ensures((id,), found) && if found != Some(caller_uid) {
                    r is Err && added == seq![ParcelItem::Code(ErrorCode::TaskNotFound)]
                } else {
                    match next_str(s.skip(1)) {
                        None => r is Err && added == Seq::<ParcelItem>::empty(),
                        Some(token) => exists|t: String, got: Option<ListedConfig>|
                            t@ == token && #[trigger] config_of.ensures((id, t), got) && match got {
                                None => r is Err && added == seq![
                                    ParcelItem::Code(ErrorCode::TaskNotFound),
                                ],
                                Some(listed) => exists|ret: ErrorCode|
                                    #[trigger] subscribe.ensures((id,), ret) && r is Ok && added
                                        == seq![ParcelItem::Code(ret)] + listed_config_items(
                                        listed.0,
                                        pair_texts(listed.1@),
                                        pair_texts(listed.2@),
                                    ),
                            },
                    }
                },
        },
    }
}

proof fn lemma_added(before: Seq<ParcelItem>, added: Seq<ParcelItem>)
    ensures
        (before + added).take(before.len() as int) == before,
        (before + added).skip(before.len() as int) == added,
{
    assert((before + added).take(before.len() as int) =~= before);
    assert((before + added).skip(before.len() as int) =~= added);
}

fn answer_alone(reply: &mut MsgParcel, code: ErrorCode)
    requires
        old(reply).wf(),
    ensures
        final(reply).wf(),
        final(reply).items() == old(reply).items() + seq![ParcelItem::Code(code)],
{
    reply.write_code(code);
    proof {
        assert(reply.items() =~= old(reply).items() + seq![ParcelItem::Code(code)]);
    }
}

/// Hands back the configuration of the task named in `data`; see
/// `get_task_outcome`. The configuration is looked up, with the token
/// read, and the caller subscribed, only for the task named, when the
/// caller owns it, and the subscription only once the configuration was
/// found.
pub fn get_task<
    Q: Fn(u32) -> Option<u64>,
    G: Fn(u32, String) -> Option<ListedConfig>,
    B: Fn(u32) -> ErrorCode,
>(
    data: &mut MsgParcel,
    reply: &mut MsgParcel,
    caller_uid: u64,
    query_uid: Q,
    config_of: G,
    subscribe: B,
) -> (r: Result<(), ()>)
    requires
        old(data).wf(),
        old(reply).wf(),
        forall|id: u32| query_uid.requires((id,)),
        forall|id: u32, token: String|
            #![trigger config_of.requires((id, token))]
            names_id(old(data).rest(), id) && query_uid.ensures((id,), Some(caller_uid))
                && next_str(old(data).rest().skip(1)) == Some(token@) ==> config_of.requires(
                (id, token),
            ),
        forall|id: u32, token: String, listed: ListedConfig|
            #![trigger subscribe.requires((id,)), config_of.ensures((id, token), Some(listed))]
            names_id(old(data).rest(), id) && query_uid.ensures((id,), Some(caller_uid))
                && config_of.ensures((id, token), Some(listed)) ==> subscribe.requires((id,)),
    ensures
        final(data).wf(),
        final(reply).wf(),
        final(data).items() == old(data).items(),
        final(reply).items().len() >= old(reply).items().len(),
        final(reply).items().take(old(reply).items().len() as int) == old(reply).items(),
        get_task_outcome(
            query_uid,
            config_of,
            subscribe,
            caller_uid,
            old(data).rest(),
            final(reply).items().skip(old(reply).items().len() as int),
            r,
        ),
{
    let ghost s = data.rest();
    let ghost before = reply.items();
    proof {
        lemma_added(before, Seq::<ParcelItem>::empty());
        assert(before + Seq::<ParcelItem>::empty() =~= before);
        lemma_added(before, seq![ParcelItem::Code(ErrorCode::TaskNotFound)]);
    }
    let text = match data.read_string() {
        Some(text) => text,
        None => return Err(()),
    };
    let id = match parse_task_id(text.as_str()) {
        Some(id) => id,
        None => {
            answer_alone(reply, ErrorCode::TaskNotFound);
            return Err(());
        },
    };
    let found = query_uid(id);
    proof {
        assert(query_uid.ensures((id,), found));
        assert(names_id(s, id));
    }
    if found != Some(caller_uid) {
        answer_alone(reply, ErrorCode::TaskNotFound);
        return Err(());
    }
    let token = match data.read_string() {
        Some(token) => token,
        None => return Err(()),
    };
    let ghost t = token;
    proof {
        assert(next_str(s.skip(1)) == Some(t@));
    }
    let got = config_of(id, token);
    proof {
        assert(config_of.ensures((id, t), got));
    }
    let listed = match got {
        Some(listed) => listed,
        None => {
            answer_alone(reply, ErrorCode::TaskNotFound);
            return Err(());
        },
    };
    proof {
        assert(config_of.ensures((id, t), Some(listed)));
    }
    let ret = subscribe(id);
    reply.write_code(ret);
    serialize_task_config(&listed.0, &listed.1, &listed.2, reply);
    proof {
        assert(subscribe.ensures((id,), ret));
        let added = seq![ParcelItem::Code(ret)] + listed_config_items(
            listed.0,
            pair_texts(listed.1@),
            pair_texts(listed.2@),
        );
        assert(reply.items() =~= before + added);
        lemma_added(before, added);
    }
    Ok(())
}

/// What a request for a task's MIME type, read from the front of `s`,
/// gets. The caller needs the internet permission or the download
/// management permission (else `Permission`). A missing task id fails with
/// nothing written; one that is no number, or a task whose owner
/// (`query_uid`) is not the caller, is not found; otherwise success is
/// written, then the type `mime_of` gives for the caller and the task.
pub open spec fn mime_outcome<Q: Fn(u32) -> Option<u64>, M: Fn(u64, u32) -> String>(
    query_uid: Q,
    mime_of: M,
    may_query: bool,
    caller_uid: u64,
    s: Seq<ParcelItem>,
    added: Seq<ParcelItem>,
    r: Result<(), ()>,
) -> bool {
    if !may_query {
        r is Err && added == seq![ParcelItem::Code(ErrorCode::Permission)]
    } else {
        match next_str(s) {
            None => r is Err && added == Seq::<ParcelItem>::empty(),
            Some(text) => match task_id_of(text) {
                None => r is Err && added == seq![ParcelItem::Code(ErrorCode::TaskNotFound)],
                Some(id) => exists|found: Option<u64>|
                    #[trigger] query_uid.ensures((id,), found) && if found != Some(caller_uid) {
                        r is Err && added == seq![ParcelItem::Code(ErrorCode::TaskNotFound)]
                    } else {
                        exists|mime: String|
                            #[trigger] mime_of.ensures((caller_uid, id), mime) && r is Ok && added
                                == seq![ParcelItem::Code(ErrorCode::ErrOk), ParcelItem::Str(mime@)]
                    },
            },
        }
    }
}

/// Hands back the MIME type of the task named in `data`; see
/// `mime_outcome`.
pub fn query_mime_type<Q: Fn(u32) -> Option<u64>, M: Fn(u64, u32) -> String>(
    data: &mut MsgParcel,
    reply: &mut MsgParcel,
    caller_uid: u64,
    download_permission: bool,
    internet: bool,
    query_uid: Q,
    mime_of: M,
) -> (r: Result<(), ()>)
    requires
        old(data).wf(),
        old(reply).wf(),
        forall|id: u32| query_uid.requires((id,)),
        forall|id: u32|
            #![trigger mime_of.requires((caller_uid, id))]
            (internet || download_permission) && names_id(old(data).rest(), id)
                && query_uid.ensures((id,), Some(caller_uid)) ==> mime_of.requires((caller_uid, id)),
    ensures
        final(data).wf(),
        final(reply).wf(),
        final(data).items() == old(data).items(),
        final(reply).items().len() >= old(reply).items().len(),
        final(reply).items().take(old(reply).items().len() as int) == old(reply).items(),
        mime_outcome(
            query_uid,
            mime_of,
            internet || download_permission,
            caller_uid,
            old(data).rest(),
            final(reply).items().skip(old(reply).items().len() as int),
            r,
        ),
{
    let ghost s = data.rest();
    let ghost before = reply.items();
    proof {
        lemma_added(before, Seq::<ParcelItem>::empty());
        assert(before + Seq::<ParcelItem>::empty() =~= before);
        lemma_added(before, seq![ParcelItem::Code(ErrorCode::TaskNotFound)]);
        lemma_added(before, seq![ParcelItem::Code(ErrorCode::Permission)]);
    }
    if !(internet || download_permission) {
        answer_alone(reply, ErrorCode::Permission);
        return Err(());
    }
    let text = match data.read_string() {
        Some(text) => text,
        None => return Err(()),
    };
    let id = match parse_task_id(text.as_str()) {
        Some(id) => id,
        None => {
            answer_alone(reply, ErrorCode::TaskNotFound);
            return Err(());
        },
    };
    let found = query_uid(id);
    proof {
        assert(query_uid.ensures((id,), found));
        assert(names_id(s, id));
    }
    if found != Some(caller_uid) {
        answer_alone(reply, ErrorCode::TaskNotFound);
        return Err(());
    }
    let mime = mime_of(caller_uid, id);
    reply.write_code(ErrorCode::ErrOk);
    reply.write_string(mime.as_str());
    proof {
        assert(mime_of.ensures((caller_uid, id), mime));
        let added = seq![ParcelItem::Code(ErrorCode::ErrOk), ParcelItem::Str(mime@)];
        assert(reply.items() =~= before + added);
        lemma_added(before, added);
    }
    Ok(())
}

} // verus!
