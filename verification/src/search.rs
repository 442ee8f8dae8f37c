//! The request that searches for tasks.

use vstd::prelude::*;

use crate::parcel::{MsgParcel, ParcelItem};
use crate::text::{dec_digits, u64_to_text};

verus! {

/// Which tasks a search looks at: those of a bundle, for a system
/// application, or those of the caller.
#[derive(Debug)]
pub enum SearchMethod {
    /// The tasks of the named bundle.
    System(String),
    /// The tasks of the user.
    User(u64),
}

/// What a search asks of the tasks it finds: their time span, state,
/// action and mode, each as its code.
#[derive(Clone, Copy, Debug, PartialEq, Eq, Structural)]
pub struct TaskFilter {
    /// Tasks created before this time.
    pub before: i64,
    /// Tasks created after this time.
    pub after: i64,
    /// The state code.
    pub state: u8,
    /// The action code.
    pub action: u8,
    /// The mode code.
    pub mode: u8,
}

/// The decimal writings of task ids, as a message carries them.
pub open spec fn id_texts(ids: Seq<u32>) -> Seq<ParcelItem> {
    ids.map_values(|id: u32| ParcelItem::Str(dec_digits(id as nat)))
}

/// What a search request read from the front of `s` gets: the bundle, the
/// time span, then the codes of state, action and mode; any of them
/// missing fails with nothing written. The search (`find`) looks at the
/// bundle's tasks for a system application and at the caller's otherwise;
/// the count of the ids it finds is written, then each id in decimal.
pub open spec fn search_outcome<F: Fn(TaskFilter, SearchMethod) -> Vec<u32>>(
    find: F,
    is_system_api: bool,
    caller_uid: u64,
    s: Seq<ParcelItem>,
    added: Seq<ParcelItem>,
    r: Result<(), ()>,
) -> bool {
    if !(s.len() >= 6 && s[0] is Str && s[1] is I64 && s[2] is I64 && s[3] is U32 && s[4] is U32
        && s[5] is U32) {
        r is Err && added == Seq::<ParcelItem>::empty()
    } else {
        let filter = TaskFilter {
            before: s[1]->I64_0,
            after: s[2]->I64_0,
            state: (s[3]->U32_0) as u8,
            action: (s[4]->U32_0) as u8,
            mode: (s[5]->U32_0) as u8,
        };
        exists|method: SearchMethod, ids: Vec<u32>|
            (if is_system_api {
                method matches SearchMethod::System(b) && b@ == s[0]->Str_0
            } else {
                method == SearchMethod::User(caller_uid)
            }) && #[trigger] find.ensures((filter, method), ids) && r is Ok && added == seq![
                ParcelItem::U32(ids@.len() as u32),
            ] + id_texts(ids@)
    }
}

/// Searches for the tasks that `data` describes and writes their ids to
/// `reply`; see `search_outcome`.
pub fn search<F: Fn(TaskFilter, SearchMethod) -> Vec<u32>>(
    data: &mut MsgParcel,
    reply: &mut MsgParcel,
    is_system_api: bool,
    caller_uid: u64,
    find: F,
) -> (r: Result<(), ()>)
    requires
        old(data).wf(),
        old(reply).wf(),
        forall|f: TaskFilter, m: SearchMethod| find.requires((f, m)),
    ensures
        final(data).wf(),
        final(reply).wf(),
        final(data).items() == old(data).items(),
        final(reply).items().len() >= old(reply).items().len(),
        final(reply).items().take(old(reply).items().len() as int) == old(reply).items(),
        search_outcome(
            find,
            is_system_api,
            caller_uid,
            old(data).rest(),
            final(reply).items().skip(old(reply).items().len() as int),
            r,
        ),
{
    let ghost s = data.rest();
    let ghost before = reply.items();
    proof {
        assert(before.take(before.len() as int) =~= before);
        assert(before.skip(before.len() as int) =~= Seq::<ParcelItem>::empty());
    }
    let bundle = match data.read_string() {
        Some(b) => b,
        None => return Err(()),
    };
    let method = if is_system_api {
        SearchMethod::System(bundle)
    } else {
        SearchMethod::User(caller_uid)
    };
    let ghost m = method;
    let before_time = match data.read_i64() {
        Some(v) => v,
        None => return Err(()),
    };
    let after_time = match data.read_i64() {
        Some(v) => v,
        None => {
            proof {
                assert(s.skip(1)[0] == s[1]);
            }
            return Err(());
        },
    };
    let state = match data.read_u32() {
        Some(v) => v,
        None => {
            proof {
                assert(s.skip(1).skip(1)[0] == s[2]);
            }
            return Err(());
        },
    };
    let action = match data.read_u32() {
        Some(v) => v,
        None => {
            proof {
                assert(s.skip(1).skip(1).skip(1)[0] == s[3]);
            }
            return Err(());
        },
    };
    let mode = match data.read_u32() {
        Some(v) => v,
        None => {
            proof {
                assert(s.skip(1).skip(1).skip(1).skip(1)[0] == s[4]);
            }
            return Err(());
        },
    };
    proof {
        assert(s.skip(1)[0] == s[1]);
        assert(s.skip(1).skip(1)[0] == s[2]);
        assert(s.skip(1).skip(1).skip(1)[0] == s[3]);
        assert(s.skip(1).skip(1).skip(1).skip(1)[0] == s[4]);
        assert(s.skip(1).skip(1).skip(1).skip(1).skip(1)[0] == s[5]);
    }
    let filter = TaskFilter {
        before: before_time,
        after: after_time,
        state: state as u8,
        action: action as u8,
        mode: mode as u8,
    };
    let ids = find(filter, method);
    proof {
        assert(find.ensures((filter, m), ids));
    }
    reply.write_u32(ids.len() as u32);
    let ghost opened = reply.items();
    let mut i: usize = 0;
    while i < ids.len()
        invariant
            reply.wf(),
            i <= ids@.len(),
            reply.items() == opened + id_texts(ids@.take(i as int)),
        decreases ids@.len() - i,
    {
        let text = u64_to_text(ids[i] as u64);
        reply.write_string(text.as_str());
        proof {
            assert(id_texts(ids@.take(i + 1)) =~= id_texts(ids@.take(i as int)).push(
                ParcelItem::Str(dec_digits(ids@[i as int] as nat)),
            ));
        }
        i = i + 1;
    }
    proof {
        assert(ids@.take(ids@.len() as int) =~= ids@);
        let added = seq![ParcelItem::U32(ids@.len() as u32)] + id_texts(ids@);
        assert(reply.items() =~= before + added);
        assert(reply.items().take(before.len() as int) =~= before);
        assert(reply.items().skip(before.len() as int) =~= added);
    }
    Ok(())
}

} // verus!
