//! The notification settings an application gives for a task.

use vstd::prelude::*;

use crate::parcel::{next_bool, next_str, next_u32, MsgParcel, ParcelItem};

verus! {

/// How a task's notifications look and behave.
#[derive(Debug)]
pub struct NotificationConfig {
    /// The task the settings apply to.
    pub task_id: u32,
    /// Custom title, if any.
    pub title: Option<String>,
    /// Custom text, if any.
    pub text: Option<String>,
    /// Custom click action, if any.
    pub want_agent: Option<String>,
    /// Whether notifications are switched off altogether.
    pub disable: bool,
    /// Which parts are visible: 0b01 completion, 0b10 progress.
    pub visibility: u32,
}

impl NotificationConfig {
    /// Settings with the given values.
    pub fn new(
        task_id: u32,
        title: Option<String>,
        text: Option<String>,
        want_agent: Option<String>,
        disable: bool,
        visibility: u32,
    ) -> (r: Self)
        ensures
            r == (NotificationConfig { task_id, title, text, want_agent, disable, visibility }),
    {
        NotificationConfig { task_id, title, text, want_agent, disable, visibility }
    }
}

/// An optional text as a message carries it: a flag, then the text when
/// the flag is set. Gives the text, if any, and what follows.
pub open spec fn dec_opt_text(s: Seq<ParcelItem>) -> Option<(Option<Seq<char>>, Seq<ParcelItem>)> {
    match next_bool(s) {
        None => None,
        Some(false) => Some((None, s.skip(1))),
        Some(true) => match next_str(s.skip(1)) {
            None => None,
            Some(t) => Some((Some(t), s.skip(2))),
        },
    }
}

/// What is read of notification settings.
pub struct NotificationRecord {
    /// The custom title, if any.
    pub title: Option<Seq<char>>,
    /// The custom text, if any.
    pub text: Option<Seq<char>>,
    /// The custom click action, if any.
    pub want_agent: Option<Seq<char>>,
    /// Whether notifications are switched off.
    pub disable: bool,
    /// The visibility mask.
    pub visibility: u32,
    /// What is left of the message.
    pub rest: Seq<ParcelItem>,
}

/// Notification settings read from the front of a message: the title, text
/// and click action, each an optional text, then the switch and the
/// visibility mask; nothing when a value is missing or of another type.
pub open spec fn decode_notification_config(s: Seq<ParcelItem>) -> Option<NotificationRecord> {
    match dec_opt_text(s) {
        None => None,
        Some((title, s1)) => match dec_opt_text(s1) {
            None => None,
            Some((text, s2)) => match dec_opt_text(s2) {
                None => None,
                Some((want_agent, s3)) => match next_bool(s3) {
                    None => None,
                    Some(disable) => match next_u32(s3.skip(1)) {
                        None => None,
                        Some(visibility) => Some(
                            NotificationRecord {
                                title,
                                text,
                                want_agent,
                                disable,
                                visibility,
                                rest: s3.skip(2),
                            },
                        ),
                    },
                },
            },
        },
    }
}

/// The view of an optional text.
pub open spec fn opt_view(o: Option<String>) -> Option<Seq<char>> {
    match o {
        Some(s) => Some(s@),
        None => None,
    }
}

pub(crate) fn read_opt_text(parcel: &mut MsgParcel) -> (r: Option<Option<String>>)
    requires
        old(parcel).wf(),
    ensures
        final(parcel).wf(),
        final(parcel).items() == old(parcel).items(),
        match dec_opt_text(old(parcel).rest()) {
            None => r is None,
            Some((t, rest)) => r matches Some(o) && opt_view(o) == t && final(parcel).rest()
                == rest,
        },
{
    let ghost s = parcel.rest();
    let present = match parcel.read_bool() {
        Some(b) => b,
        None => return None,
    };
    if !present {
        return Some(None);
    }
    let t = match parcel.read_string() {
        Some(t) => t,
        None => return None,
    };
    proof {
        assert(s.skip(1).skip(1) =~= s.skip(2));
    }
    Some(Some(t))
}

impl NotificationConfig {
    /// Reads notification settings from a message; the task they belong to
    /// is set later. Fails exactly when the message does not hold them.
    pub fn deserialize(parcel: &mut MsgParcel) -> (r: Option<NotificationConfig>)
        requires
            old(parcel).wf(),
        ensures
            final(parcel).wf(),
            final(parcel).items() == old(parcel).items(),
            r is Some <==> decode_notification_config(old(parcel).rest()) is Some,
            r matches Some(c) ==> {
                let d = decode_notification_config(old(parcel).rest()).unwrap();
                &&& c.task_id == 0
                &&& opt_view(c.title) == d.title
                &&& opt_view(c.text) == d.text
                &&& opt_view(c.want_agent) == d.want_agent
                &&& c.disable == d.disable
                &&& c.visibility == d.visibility
                &&& final(parcel).rest() == d.rest
            },
    {
        let ghost s = parcel.rest();
        let title = match read_opt_text(parcel) {
            Some(t) => t,
            None => return None,
        };
        let text = match read_opt_text(parcel) {
            Some(t) => t,
            None => return None,
        };
        let want_agent = match read_opt_text(parcel) {
            Some(t) => t,
            None => return None,
        };
        let ghost s3 = parcel.rest();
        let disable = match parcel.read_bool() {
            Some(b) => b,
            None => return None,
        };
        let visibility = match parcel.read_u32() {
            Some(v) => v,
            None => return None,
        };
        proof {
            assert(s3.skip(1).skip(1) =~= s3.skip(2));
        }
        Some(NotificationConfig { task_id: 0, title, text, want_agent, disable, visibility })
    }
}

} // verus!
