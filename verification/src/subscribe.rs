//! The requests that subscribe the caller to the events of its task, open
//! the caller's channel for events, and end its subscription to the run
//! count.

use vstd::prelude::*;

use crate::command::{parse_task_id, task_id_of};
use crate::error::ErrorCode;
use crate::parcel::{next_str, MsgParcel, ParcelItem};

verus! {

/// What a subscription request read from the front of `s` gets, as the
/// code written and the result. A missing task id fails with nothing
/// written; one that is no number, or a task whose owner (`query_uid`) is
/// not the caller, is not found. The task manager is told of the
/// subscription (`send`): a message it did not take or an answer it did
/// not give is `Other`, an answer other than success is passed on. Then
/// the caller is registered for the task's events (`register`), and its
/// answer is written; the request succeeds when that is success.
pub open spec fn subscribe_outcome<
    Q: Fn(u32) -> Option<u64>,
    S: Fn(u32) -> (bool, Option<ErrorCode>),
    R: Fn(u32) -> ErrorCode,
>(
    query_uid: Q,
    send: S,
    register: R,
    caller_uid: u64,
    s: Seq<ParcelItem>,
    added: Seq<ParcelItem>,
    r: Result<(), ()>,
) -> bool {
    match next_str(s) {
        None => r is Err && added == Seq::<ParcelItem>::empty(),
        Some(text) => match task_id_of(text) {
            None => r is Err && added == seq![ParcelItem::Code(ErrorCode::TaskNotFound)],
            Some(id) => exists|found: Option<u64>|
                #[trigger] query_uid.ensures((id,), found) && if found != Some(caller_uid) {
                    r is Err && added == seq![ParcelItem::Code(ErrorCode::TaskNotFound)]
                } else {
                    exists|answer: (bool, Option<ErrorCode>)|
                        #[trigger] send.ensures((id,), answer) && if !answer.0 || answer.1 is None {
                            r is Err && added == seq![ParcelItem::Code(ErrorCode::Other)]
                        } else if answer.1 != Some(ErrorCode::ErrOk) {
                            r is Err && added == seq![ParcelItem::Code(answer.1->0)]
                        } else {
                            exists|ret: ErrorCode|
                                #[trigger] register.ensures((id,), ret) && (r is Ok <==> ret
                                    == ErrorCode::ErrOk) && added == seq![ParcelItem::Code(ret)]
                        }
                },
        },
    }
}

/// Whether the text at the front of `s` names the task `id`.
pub open spec fn names_id(s: Seq<ParcelItem>, id: u32) -> bool {
    next_str(s) matches Some(t) && task_id_of(t) == Some(id)
}

fn reply_with(reply: &mut MsgParcel, code: ErrorCode)
    requires
        old(reply).wf(),
    ensures
        final(reply).wf(),
        final(reply).items() == old(reply).items().push(ParcelItem::Code(code)),
        final(reply).items().take(old(reply).items().len() as int) == old(reply).items(),
        final(reply).items().skip(old(reply).items().len() as int) == seq![ParcelItem::Code(code)],
{
    reply.write_code(code);
    proof {
        assert(reply.items().take(old(reply).items().len() as int) =~= old(reply).items());
        assert(reply.items().skip(old(reply).items().len() as int) =~= seq![
            ParcelItem::Code(code),
        ]);
    }
}

/// Subscribes the caller to the task named in `data`; see
/// `subscribe_outcome`. The task manager may be told of the subscription
/// only for the task named, when the caller owns it, and the caller
/// registered only after the task manager took it.
pub fn subscribe<
    Q: Fn(u32) -> Option<u64>,
    S: Fn(u32) -> (bool, Option<ErrorCode>),
    R: Fn(u32) -> ErrorCode,
>(
    data: &mut MsgParcel,
    reply: &mut MsgParcel,
    caller_uid: u64,
    query_uid: Q,
    send: S,
    register: R,
) -> (r: Result<(), ()>)
    requires
        old(data).wf(),
        old(reply).wf(),
        forall|id: u32| query_uid.requires((id,)),
        forall|id: u32|
            #![trigger send.requires((id,))]
            names_id(old(data).rest(), id) && query_uid.ensures((id,), Some(caller_uid))
                ==> send.requires((id,)),
        forall|id: u32|
            #![trigger register.requires((id,))]
            names_id(old(data).rest(), id) && query_uid.ensures((id,), Some(caller_uid))
                && send.ensures((id,), (true, Some(ErrorCode::ErrOk))) ==> register.requires((id,)),
    ensures
        final(data).wf(),
        final(reply).wf(),
        final(data).items() == old(data).items(),
        final(reply).items().len() >= old(reply).items().len(),
        final(reply).items().take(old(reply).items().len() as int) == old(reply).items(),
        subscribe_outcome(
            query_uid,
            send,
            register,
            caller_uid,
            old(data).rest(),
            final(reply).items().skip(old(reply).items().len() as int),
            r,
        ),
{
    let ghost s = data.rest();
    proof {
        let items = reply.items();
        assert(items.take(items.len() as int) =~= items);
        assert(items.skip(items.len() as int) =~= Seq::<ParcelItem>::empty());
    }
    let text = match data.read_string() {
        Some(text) => text,
        None => return Err(()),
    };
    let id = match parse_task_id(text.as_str()) {
        Some(id) => id,
        None => {
            reply_with(reply, ErrorCode::TaskNotFound);
            return Err(());
        },
    };
    let found = query_uid(id);
    proof {
        assert(query_uid.ensures((id,), found));
        assert(names_id(s, id));
    }
    if found != Some(caller_uid) {
        reply_with(reply, ErrorCode::TaskNotFound);
        return Err(());
    }
    let answer = send(id);
    proof {
        assert(send.ensures((id,), answer));
    }
    let ret = match answer {
        (true, Some(ret)) => ret,
        _ => {
            reply_with(reply, ErrorCode::Other);
            return Err(());
        },
    };
    if ret != ErrorCode::ErrOk {
        reply_with(reply, ret);
        return Err(());
    }
    let registered = register(id);
    proof {
        assert(register.ensures((id,), registered));
    }
    reply_with(reply, registered);
    if registered == ErrorCode::ErrOk {
        Ok(())
    } else {
        Err(())
    }
}

/// What a request to open the caller's channel gets: the channel is opened
/// (`open`); its file is handed back after success, and a failure answers
/// `ParameterCheck`.
pub open spec fn open_channel_outcome<O: Fn() -> Option<i32>>(
    open: O,
    added: Seq<ParcelItem>,
    r: Result<(), ()>,
) -> bool {
    exists|opened: Option<i32>|
        #[trigger] open.ensures((), opened) && match opened {
            Some(fd) => r is Ok && added == seq![
                ParcelItem::Code(ErrorCode::ErrOk),
                ParcelItem::Fd(fd),
            ],
            None => r is Err && added == seq![ParcelItem::Code(ErrorCode::ParameterCheck)],
        }
}

/// Opens the caller's channel for events; see `open_channel_outcome`.
pub fn open_channel<O: Fn() -> Option<i32>>(reply: &mut MsgParcel, open: O) -> (r: Result<(), ()>)
    requires
        old(reply).wf(),
        open.requires(()),
    ensures
        final(reply).wf(),
        final(reply).items().len() >= old(reply).items().len(),
        final(reply).items().take(old(reply).items().len() as int) == old(reply).items(),
        open_channel_outcome(
            open,
            final(reply).items().skip(old(reply).items().len() as int),
            r,
        ),
{
    let opened = open();
    proof {
        assert(open.ensures((), opened));
    }
    match opened {
        Some(fd) => {
            reply.write_code(ErrorCode::ErrOk);
            reply.write_fd(fd);
            proof {
                let before = old(reply).items();
                let added = seq![ParcelItem::Code(ErrorCode::ErrOk), ParcelItem::Fd(fd)];
                assert(reply.items() =~= before + added);
                assert(reply.items().take(before.len() as int) =~= before);
                assert(reply.items().skip(before.len() as int) =~= added);
            }
            Ok(())
        },
        None => {
            reply_with(reply, ErrorCode::ParameterCheck);
            Err(())
        },
    }
}

/// What a request to end the caller's subscription to the run count gets:
/// an application package is refused with nothing written; otherwise the
/// subscription is ended (`unsubscribe`) and its answer written, the
/// request succeeding when that is success.
pub open spec fn unsubscribe_run_count_outcome<U: Fn() -> ErrorCode>(
    unsubscribe: U,
    called_by_hap: bool,
    added: Seq<ParcelItem>,
    r: Result<(), ()>,
) -> bool {
    if called_by_hap {
        r is Err && added == Seq::<ParcelItem>::empty()
    } else {
        exists|ret: ErrorCode|
            #[trigger] unsubscribe.ensures((), ret) && added == seq![ParcelItem::Code(ret)] && (r
                is Ok <==> ret == ErrorCode::ErrOk)
    }
}

/// Ends the caller's subscription to the run count; see
/// `unsubscribe_run_count_outcome`.
pub fn unsubscribe_run_count<U: Fn() -> ErrorCode>(
    reply: &mut MsgParcel,
    called_by_hap: bool,
    unsubscribe: U,
) -> (r: Result<(), ()>)
    requires
        old(reply).wf(),
        !called_by_hap ==> unsubscribe.requires(()),
    ensures
        final(reply).wf(),
        final(reply).items().len() >= old(reply).items().len(),
        final(reply).items().take(old(reply).items().len() as int) == old(reply).items(),
        unsubscribe_run_count_outcome(
            unsubscribe,
            called_by_hap,
            final(reply).items().skip(old(reply).items().len() as int),
            r,
        ),
{
    if called_by_hap {
        proof {
            let items = reply.items();
            assert(items.take(items.len() as int) =~= items);
            assert(items.skip(items.len() as int) =~= Seq::<ParcelItem>::empty());
        }
        return Err(());
    }
    let ret = unsubscribe();
    proof {
        assert(unsubscribe.ensures((), ret));
    }
    reply_with(reply, ret);
    if ret == ErrorCode::ErrOk {
        Ok(())
    } else {
        Err(())
    }
}

} // verus!
