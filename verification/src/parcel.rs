//! Messages between processes, as sequences of typed values, and the way a
//! task configuration is written to one and read back from one.
//!
//! A message is written at its end and read from its front. Each read takes
//! the next value when it has the asked type, and fails otherwise.

use vstd::prelude::*;

use std::collections::HashMap;
use std::hash::RandomState;

use vstd::std_specs::hash::{axiom_random_state_builds_valid_hashers, builds_valid_hashers, obeys_key_model};

use crate::config::{
    action_code, action_of_code, atomic_account_of, count_fits, received_fd, mode_code, mode_of_code, network_code,
    network_of_code, version_code, version_of_code, Action, CommonTaskConfig, FileSpec, FormItem,
    MinSpeed, Mode, NetworkConfig, TaskConfig, Timeout, Version, ATOMIC_SERVICE,
};
use crate::error::ErrorCode;
use crate::text::{texts, to_owned_string};
use crate::utils::pair_texts;

verus! {

/// A value carried by a message.
#[derive(Debug)]
pub enum ParcelValue {
    /// An unsigned 32-bit number.
    U32(u32),
    /// A flag.
    Bool(bool),
    /// A signed 64-bit number.
    I64(i64),
    /// An unsigned 64-bit number.
    U64(u64),
    /// A text.
    Str(String),
    /// An open file, by its descriptor.
    Fd(i32),
    /// The answer code of a request.
    Code(ErrorCode),
}

/// What a value of a message stands for.
pub enum ParcelItem {
    /// An unsigned 32-bit number.
    U32(u32),
    /// A flag.
    Bool(bool),
    /// A signed 64-bit number.
    I64(i64),
    /// An unsigned 64-bit number.
    U64(u64),
    /// A text.
    Str(Seq<char>),
    /// An open file, by its descriptor.
    Fd(i32),
    /// The answer code of a request.
    Code(ErrorCode),
}

impl View for ParcelValue {
    type V = ParcelItem;

    open spec fn view(&self) -> ParcelItem {
        match self {
            ParcelValue::U32(x) => ParcelItem::U32(*x),
            ParcelValue::Bool(x) => ParcelItem::Bool(*x),
            ParcelValue::I64(x) => ParcelItem::I64(*x),
            ParcelValue::U64(x) => ParcelItem::U64(*x),
            ParcelValue::Str(s) => ParcelItem::Str(s@),
            ParcelValue::Fd(x) => ParcelItem::Fd(*x),
            ParcelValue::Code(c) => ParcelItem::Code(*c),
        }
    }
}

/// What a sequence of values stands for.
pub open spec fn items_of(v: Seq<ParcelValue>) -> Seq<ParcelItem> {
    v.map_values(|x: ParcelValue| x@)
}

/// A message: the values written to it, and how many were read.
pub struct MsgParcel {
    values: Vec<ParcelValue>,
    pos: usize,
}

impl MsgParcel {
    /// Whether no more values were read than were written.
    pub closed spec fn wf(self) -> bool {
        self.pos <= self.values@.len()
    }

    /// Everything the message carries.
    pub closed spec fn items(self) -> Seq<ParcelItem> {
        items_of(self.values@)
    }

    /// What is left to read.
    pub closed spec fn rest(self) -> Seq<ParcelItem> {
        items_of(self.values@).skip(self.pos as int)
    }

    /// How many values were read.
    pub closed spec fn consumed(self) -> int {
        self.pos as int
    }

    /// What is left to read follows what was read.
    pub proof fn lemma_rest_follows(self)
        requires
            self.wf(),
        ensures
            0 <= self.consumed() <= self.items().len(),
            self.rest() == self.items().skip(self.consumed()),
    {
    }

    /// An empty message.
    pub fn new() -> (r: Self)
        ensures
            r.wf(),
            r.items() == Seq::<ParcelItem>::empty(),
            r.rest() == Seq::<ParcelItem>::empty(),
    {
        let r = MsgParcel { values: Vec::new(), pos: 0 };
        proof {
            assert(items_of(r.values@) =~= Seq::<ParcelItem>::empty());
        }
        r
    }

    /// A message carrying `values`, none read yet.
    pub fn from_values(values: Vec<ParcelValue>) -> (r: Self)
        ensures
            r.wf(),
            r.items() == items_of(values@),
            r.rest() == items_of(values@),
    {
        let r = MsgParcel { values, pos: 0 };
        proof {
            assert(items_of(r.values@).skip(0) =~= items_of(r.values@));
        }
        r
    }

    /// The values the message carries, read or not.
    pub fn into_values(self) -> (r: Vec<ParcelValue>)
        ensures
            items_of(r@) == self.items(),
    {
        self.values
    }

    /// How many values are left to read.
    pub fn readable(&self) -> (r: usize)
        requires
            self.wf(),
        ensures
            r == self.rest().len(),
    {
        self.values.len() - self.pos
    }

    fn push(&mut self, v: ParcelValue)
        requires
            old(self).wf(),
        ensures
            final(self).wf(),
            final(self).items() == old(self).items().push(v@),
            final(self).rest() == old(self).rest().push(v@),
    {
        let ghost before = self.values@;
        self.values.push(v);
        proof {
            assert(items_of(self.values@) =~= items_of(before).push(v@));
            assert(items_of(self.values@).skip(self.pos as int) =~= items_of(before).skip(
                self.pos as int,
            ).push(v@));
        }
    }

    /// Writes an unsigned 32-bit number.
    pub fn write_u32(&mut self, x: u32)
        requires
            old(self).wf(),
        ensures
            final(self).wf(),
            final(self).items() == old(self).items().push(ParcelItem::U32(x)),
            final(self).rest() == old(self).rest().push(ParcelItem::U32(x)),
    {
        self.push(ParcelValue::U32(x));
    }

    /// Writes a flag.
    pub fn write_bool(&mut self, x: bool)
        requires
            old(self).wf(),
        ensures
            final(self).wf(),
            final(self).items() == old(self).items().push(ParcelItem::Bool(x)),
            final(self).rest() == old(self).rest().push(ParcelItem::Bool(x)),
    {
        self.push(ParcelValue::Bool(x));
    }

    /// Writes a signed 64-bit number.
    pub fn write_i64(&mut self, x: i64)
        requires
            old(self).wf(),
        ensures
            final(self).wf(),
            final(self).items() == old(self).items().push(ParcelItem::I64(x)),
            final(self).rest() == old(self).rest().push(ParcelItem::I64(x)),
    {
        self.push(ParcelValue::I64(x));
    }

    /// Writes an unsigned 64-bit number.
    pub fn write_u64(&mut self, x: u64)
        requires
            old(self).wf(),
        ensures
            final(self).wf(),
            final(self).items() == old(self).items().push(ParcelItem::U64(x)),
            final(self).rest() == old(self).rest().push(ParcelItem::U64(x)),
    {
        self.push(ParcelValue::U64(x));
    }

    /// Writes a text.
    pub fn write_string(&mut self, s: &str)
        requires
            old(self).wf(),
        ensures
            final(self).wf(),
            final(self).items() == old(self).items().push(ParcelItem::Str(s@)),
            final(self).rest() == old(self).rest().push(ParcelItem::Str(s@)),
    {
        self.push(ParcelValue::Str(to_owned_string(s)));
    }

    /// Writes an open file by its descriptor.
    pub fn write_fd(&mut self, fd: i32)
        requires
            old(self).wf(),
        ensures
            final(self).wf(),
            final(self).items() == old(self).items().push(ParcelItem::Fd(fd)),
            final(self).rest() == old(self).rest().push(ParcelItem::Fd(fd)),
    {
        self.push(ParcelValue::Fd(fd));
    }

    /// Writes the answer code of a request.
    pub fn write_code(&mut self, code: ErrorCode)
        requires
            old(self).wf(),
        ensures
            final(self).wf(),
            final(self).items() == old(self).items().push(ParcelItem::Code(code)),
            final(self).rest() == old(self).rest().push(ParcelItem::Code(code)),
    {
        self.push(ParcelValue::Code(code));
    }

    fn advance(&mut self)
        requires
            old(self).wf(),
            old(self).rest().len() > 0,
        ensures
            final(self).wf(),
            final(self).items() == old(self).items(),
            final(self).rest() == old(self).rest().skip(1),
    {
        assert(items_of(self.values@).len() == self.values@.len());
        if self.pos < self.values.len() {
            self.pos = self.pos + 1;
        }
        proof {
            assert(items_of(self.values@).skip(self.pos as int) =~= old(self).rest().skip(1));
        }
    }

    fn peek(&self) -> (r: Option<&ParcelValue>)
        requires
            self.wf(),
        ensures
            self.rest().len() == 0 ==> r is None,
            self.rest().len() > 0 ==> (r matches Some(v) && v@ == self.rest()[0]),
    {
        if self.pos < self.values.len() {
            proof {
                assert(self.rest()[0] == self.values@[self.pos as int]@);
            }
            Some(&self.values[self.pos])
        } else {
            None
        }
    }

    /// Reads an unsigned 32-bit number.
    pub fn read_u32(&mut self) -> (r: Option<u32>)
        requires
            old(self).wf(),
        ensures
            final(self).wf(),
            r == next_u32(old(self).rest()),
            final(self).items() == old(self).items(),
            final(self).rest() == if r is Some {
                old(self).rest().skip(1)
            } else {
                old(self).rest()
            },
    {
        let x = match self.peek() {
            Some(ParcelValue::U32(x)) => *x,
            _ => return None,
        };
        self.advance();
        Some(x)
    }

    /// Reads a flag.
    pub fn read_bool(&mut self) -> (r: Option<bool>)
        requires
            old(self).wf(),
        ensures
            final(self).wf(),
            r == next_bool(old(self).rest()),
            final(self).items() == old(self).items(),
            final(self).rest() == if r is Some {
                old(self).rest().skip(1)
            } else {
                old(self).rest()
            },
    {
        let x = match self.peek() {
            Some(ParcelValue::Bool(x)) => *x,
            _ => return None,
        };
        self.advance();
        Some(x)
    }

    /// Reads a signed 64-bit number.
    pub fn read_i64(&mut self) -> (r: Option<i64>)
        requires
            old(self).wf(),
        ensures
            final(self).wf(),
            r == next_i64(old(self).rest()),
            final(self).items() == old(self).items(),
            final(self).rest() == if r is Some {
                old(self).rest().skip(1)
            } else {
                old(self).rest()
            },
    {
        let x = match self.peek() {
            Some(ParcelValue::I64(x)) => *x,
            _ => return None,
        };
        self.advance();
        Some(x)
    }

    /// Reads an unsigned 64-bit number.
    pub fn read_u64(&mut self) -> (r: Option<u64>)
        requires
            old(self).wf(),
        ensures
            final(self).wf(),
            r == next_u64(old(self).rest()),
            final(self).items() == old(self).items(),
            final(self).rest() == if r is Some {
                old(self).rest().skip(1)
            } else {
                old(self).rest()
            },
    {
        let x = match self.peek() {
            Some(ParcelValue::U64(x)) => *x,
            _ => return None,
        };
        self.advance();
        Some(x)
    }

    /// Reads a text.
    pub fn read_string(&mut self) -> (r: Option<String>)
        requires
            old(self).wf(),
        ensures
            final(self).wf(),
            (match r {
                Some(s) => Some(s@),
                None => None,
            }) == next_str(old(self).rest()),
            final(self).items() == old(self).items(),
            final(self).rest() == if r is Some {
                old(self).rest().skip(1)
            } else {
                old(self).rest()
            },
    {
        let x = match self.peek() {
            Some(ParcelValue::Str(s)) => to_owned_string(s.as_str()),
            _ => return None,
        };
        self.advance();
        Some(x)
    }

    /// Reads an open file's descriptor.
    pub fn read_fd(&mut self) -> (r: Option<i32>)
        requires
            old(self).wf(),
        ensures
            final(self).wf(),
            r == next_fd(old(self).rest()),
            final(self).items() == old(self).items(),
            final(self).rest() == if r is Some {
                old(self).rest().skip(1)
            } else {
                old(self).rest()
            },
    {
        let x = match self.peek() {
            Some(ParcelValue::Fd(x)) => *x,
            _ => return None,
        };
        self.advance();
        Some(x)
    }

    /// Reads the answer code of a request.
    pub fn read_code(&mut self) -> (r: Option<ErrorCode>)
        requires
            old(self).wf(),
        ensures
            final(self).wf(),
            r == next_code(old(self).rest()),
            final(self).items() == old(self).items(),
            final(self).rest() == if r is Some {
                old(self).rest().skip(1)
            } else {
                old(self).rest()
            },
    {
        let x = match self.peek() {
            Some(ParcelValue::Code(x)) => *x,
            _ => return None,
        };
        self.advance();
        Some(x)
    }
}

/// The next value of a message, when it is an unsigned 32-bit number.
pub open spec fn next_u32(rest: Seq<ParcelItem>) -> Option<u32> {
    if rest.len() > 0 && rest[0] is U32 {
        Some(rest[0]->U32_0)
    } else {
        None
    }
}

/// The next value of a message, when it is a flag.
pub open spec fn next_bool(rest: Seq<ParcelItem>) -> Option<bool> {
    if rest.len() > 0 && rest[0] is Bool {
        Some(rest[0]->Bool_0)
    } else {
        None
    }
}

/// The next value of a message, when it is a signed 64-bit number.
pub open spec fn next_i64(rest: Seq<ParcelItem>) -> Option<i64> {
    if rest.len() > 0 && rest[0] is I64 {
        Some(rest[0]->I64_0)
    } else {
        None
    }
}

/// The next value of a message, when it is an unsigned 64-bit number.
pub open spec fn next_u64(rest: Seq<ParcelItem>) -> Option<u64> {
    if rest.len() > 0 && rest[0] is U64 {
        Some(rest[0]->U64_0)
    } else {
        None
    }
}

/// The next value of a message, when it is a text.
pub open spec fn next_str(rest: Seq<ParcelItem>) -> Option<Seq<char>> {
    if rest.len() > 0 && rest[0] is Str {
        Some(rest[0]->Str_0)
    } else {
        None
    }
}

/// The next value of a message, when it is a file.
pub open spec fn next_fd(rest: Seq<ParcelItem>) -> Option<i32> {
    if rest.len() > 0 && rest[0] is Fd {
        Some(rest[0]->Fd_0)
    } else {
        None
    }
}

/// The next value of a message, when it is an answer code.
pub open spec fn next_code(rest: Seq<ParcelItem>) -> Option<ErrorCode> {
    if rest.len() > 0 && rest[0] is Code {
        Some(rest[0]->Code_0)
    } else {
        None
    }
}

/// The codes that open a written task configuration.
pub open spec fn head_codes(c: TaskConfig) -> Seq<ParcelItem> {
    seq![
        ParcelItem::U32(action_code(c.common_data.action) as u32),
        ParcelItem::U32(version_code(c.version) as u32),
        ParcelItem::U32(mode_code(c.common_data.mode) as u32),
        ParcelItem::U32(c.bundle_type),
        ParcelItem::Bool(c.common_data.cover),
        ParcelItem::U32(network_code(c.common_data.network_config) as u32),
    ]
}

/// The flags that follow.
pub open spec fn head_flags(c: TaskConfig) -> Seq<ParcelItem> {
    seq![
        ParcelItem::Bool(c.common_data.metered),
        ParcelItem::Bool(c.common_data.roaming),
        ParcelItem::Bool(c.common_data.retry),
        ParcelItem::Bool(c.common_data.redirect),
        ParcelItem::Bool(c.common_data.background),
        ParcelItem::Bool(c.common_data.multipart),
    ]
}

/// The file index, range and the flags and priority that follow.
pub open spec fn head_range(c: TaskConfig) -> Seq<ParcelItem> {
    seq![
        ParcelItem::U32(c.common_data.index),
        ParcelItem::I64(c.common_data.begins as i64),
        ParcelItem::I64(c.common_data.ends),
        ParcelItem::Bool(c.common_data.gauge),
        ParcelItem::Bool(c.common_data.precise),
        ParcelItem::U32(c.common_data.priority),
    ]
}

/// The speeds and time-outs, then the URL and title.
pub open spec fn head_limits(c: TaskConfig) -> Seq<ParcelItem> {
    seq![
        ParcelItem::I64(c.common_data.min_speed.speed),
        ParcelItem::I64(c.common_data.min_speed.duration),
        ParcelItem::U64(c.common_data.timeout.connection_timeout),
        ParcelItem::U64(c.common_data.timeout.total_timeout),
        ParcelItem::Str(c.url@),
        ParcelItem::Str(c.title@),
    ]
}

/// The remaining texts.
pub open spec fn head_texts(c: TaskConfig) -> Seq<ParcelItem> {
    seq![
        ParcelItem::Str(c.method@),
        ParcelItem::Str(c.token@),
        ParcelItem::Str(c.description@),
        ParcelItem::Str(c.data@),
        ParcelItem::Str(c.proxy@),
        ParcelItem::Str(c.certificate_pins@),
    ]
}

/// The values that open a written task configuration: its codes, flags,
/// range, speeds, time-outs and texts, in this order.
pub open spec fn config_head(c: TaskConfig) -> Seq<ParcelItem> {
    head_codes(c) + head_flags(c) + head_range(c) + head_limits(c) + head_texts(c)
}

/// Texts written one after another.
pub open spec fn texts_items(v: Seq<Seq<char>>) -> Seq<ParcelItem>
    decreases v.len(),
{
    if v.len() == 0 {
        Seq::empty()
    } else {
        texts_items(v.drop_last()).push(ParcelItem::Str(v.last()))
    }
}

/// Form fields written one after another, each as its name and value.
pub open spec fn forms_items(v: Seq<FormItem>) -> Seq<ParcelItem>
    decreases v.len(),
{
    if v.len() == 0 {
        Seq::empty()
    } else {
        forms_items(v.drop_last()) + seq![
            ParcelItem::Str(v.last().name@),
            ParcelItem::Str(v.last().value@),
        ]
    }
}

/// The values of one file: its name, path, file name, MIME type and whether
/// the caller handed it in open, then, for such a file, the file itself.
pub open spec fn file_items(f: FileSpec) -> Seq<ParcelItem> {
    seq![
        ParcelItem::Str(f.name@),
        ParcelItem::Str(f.path@),
        ParcelItem::Str(f.file_name@),
        ParcelItem::Str(f.mime_type@),
        ParcelItem::Bool(f.is_user_file),
    ] + if f.is_user_file {
        seq![ParcelItem::Fd(f.fd.unwrap())]
    } else {
        Seq::empty()
    }
}

/// Files written one after another.
pub open spec fn files_items(v: Seq<FileSpec>) -> Seq<ParcelItem>
    decreases v.len(),
{
    if v.len() == 0 {
        Seq::empty()
    } else {
        files_items(v.drop_last()) + file_items(v.last())
    }
}

/// Key/value pairs written one after another, each as its key and value.
pub open spec fn pairs_items(v: Seq<(Seq<char>, Seq<char>)>) -> Seq<ParcelItem>
    decreases v.len(),
{
    if v.len() == 0 {
        Seq::empty()
    } else {
        pairs_items(v.drop_last()) + seq![ParcelItem::Str(v.last().0), ParcelItem::Str(v.last().1)]
    }
}

/// A written task configuration, with its headers and extras as the pairs
/// they were written as: the opening values, then the certificate paths,
/// form fields, files, body files, headers and extras, each list after its
/// length.
pub open spec fn config_items(
    c: TaskConfig,
    headers: Seq<(Seq<char>, Seq<char>)>,
    extras: Seq<(Seq<char>, Seq<char>)>,
) -> Seq<ParcelItem> {
    config_head(c) + seq![ParcelItem::U32(c.certs_path@.len() as u32)] + texts_items(
        texts(c.certs_path@),
    ) + seq![ParcelItem::U32(c.form_items@.len() as u32)] + forms_items(c.form_items@) + seq![
        ParcelItem::U32(c.file_specs@.len() as u32),
    ] + files_items(c.file_specs@) + seq![ParcelItem::U32(c.body_file_paths@.len() as u32)]
        + texts_items(texts(c.body_file_paths@)) + seq![ParcelItem::U32(headers.len() as u32)]
        + pairs_items(headers) + seq![ParcelItem::U32(extras.len() as u32)] + pairs_items(extras)
}

/// Whether every file the caller handed in open carries its descriptor.
pub open spec fn user_files_open(v: Seq<FileSpec>) -> bool {
    forall|i: int| 0 <= i < v.len() && (#[trigger] v[i]).is_user_file ==> v[i].fd is Some
}

fn write_texts(parcel: &mut MsgParcel, v: &Vec<String>)
    requires
        old(parcel).wf(),
    ensures
        final(parcel).wf(),
        final(parcel).items() == old(parcel).items() + seq![ParcelItem::U32(v@.len() as u32)]
            + texts_items(texts(v@)),
{
    parcel.write_u32(v.len() as u32);
    let ghost start = parcel.items();
    let mut i: usize = 0;
    while i < v.len()
        invariant
            parcel.wf(),
            i <= v@.len(),
            parcel.items() == start + texts_items(texts(v@.take(i as int))),
        decreases v@.len() - i,
    {
        parcel.write_string(v[i].as_str());
        proof {
            assert(texts(v@.take(i + 1)).drop_last() =~= texts(v@.take(i as int)));
            assert(texts(v@.take(i + 1)).last() == v@[i as int]@);
        }
        i = i + 1;
    }
    proof {
        assert(v@.take(v@.len() as int) =~= v@);
    }
}

fn write_pairs(parcel: &mut MsgParcel, v: &Vec<(String, String)>)
    requires
        old(parcel).wf(),
    ensures
        final(parcel).wf(),
        final(parcel).items() == old(parcel).items() + seq![ParcelItem::U32(v@.len() as u32)]
            + pairs_items(pair_texts(v@)),
{
    parcel.write_u32(v.len() as u32);
    let ghost start = parcel.items();
    let mut i: usize = 0;
    while i < v.len()
        invariant
            parcel.wf(),
            i <= v@.len(),
            parcel.items() == start + pairs_items(pair_texts(v@.take(i as int))),
        decreases v@.len() - i,
    {
        parcel.write_string(v[i].0.as_str());
        parcel.write_string(v[i].1.as_str());
        proof {
            assert(pair_texts(v@.take(i + 1)).drop_last() =~= pair_texts(v@.take(i as int)));
            assert(pair_texts(v@.take(i + 1)).last() == (v@[i as int].0@, v@[i as int].1@));
        }
        i = i + 1;
    }
    proof {
        assert(v@.take(v@.len() as int) =~= v@);
    }
}

fn write_head_codes(parcel: &mut MsgParcel, c: &TaskConfig)
    requires
        old(parcel).wf(),
    ensures
        final(parcel).wf(),
        final(parcel).items() == old(parcel).items() + head_codes(*c),
{
    parcel.write_u32(c.common_data.action.repr() as u32);
    parcel.write_u32(c.version.repr() as u32);
    parcel.write_u32(c.common_data.mode.repr() as u32);
    parcel.write_u32(c.bundle_type);
    parcel.write_bool(c.common_data.cover);
    parcel.write_u32(c.common_data.network_config.repr() as u32);
    proof {
        assert(parcel.items() =~= old(parcel).items() + head_codes(*c));
    }
}

fn write_head_flags(parcel: &mut MsgParcel, c: &TaskConfig)
    requires
        old(parcel).wf(),
    ensures
        final(parcel).wf(),
        final(parcel).items() == old(parcel).items() + head_flags(*c),
{
    parcel.write_bool(c.common_data.metered);
    parcel.write_bool(c.common_data.roaming);
    parcel.write_bool(c.common_data.retry);
    parcel.write_bool(c.common_data.redirect);
    parcel.write_bool(c.common_data.background);
    parcel.write_bool(c.common_data.multipart);
    proof {
        assert(parcel.items() =~= old(parcel).items() + head_flags(*c));
    }
}

fn write_head_range(parcel: &mut MsgParcel, c: &TaskConfig)
    requires
        old(parcel).wf(),
    ensures
        final(parcel).wf(),
        final(parcel).items() == old(parcel).items() + head_range(*c),
{
    parcel.write_u32(c.common_data.index);
    parcel.write_i64(c.common_data.begins as i64);
    parcel.write_i64(c.common_data.ends);
    parcel.write_bool(c.common_data.gauge);
    parcel.write_bool(c.common_data.precise);
    parcel.write_u32(c.common_data.priority);
    proof {
        assert(parcel.items() =~= old(parcel).items() + head_range(*c));
    }
}

fn write_head_limits(parcel: &mut MsgParcel, c: &TaskConfig)
    requires
        old(parcel).wf(),
    ensures
        final(parcel).wf(),
        final(parcel).items() == old(parcel).items() + head_limits(*c),
{
    parcel.write_i64(c.common_data.min_speed.speed);
    parcel.write_i64(c.common_data.min_speed.duration);
    parcel.write_u64(c.common_data.timeout.connection_timeout);
    parcel.write_u64(c.common_data.timeout.total_timeout);
    parcel.write_string(c.url.as_str());
    parcel.write_string(c.title.as_str());
    proof {
        assert(parcel.items() =~= old(parcel).items() + head_limits(*c));
    }
}

fn write_head_texts(parcel: &mut MsgParcel, c: &TaskConfig)
    requires
        old(parcel).wf(),
    ensures
        final(parcel).wf(),
        final(parcel).items() == old(parcel).items() + head_texts(*c),
{
    parcel.write_string(c.method.as_str());
    parcel.write_string(c.token.as_str());
    parcel.write_string(c.description.as_str());
    parcel.write_string(c.data.as_str());
    parcel.write_string(c.proxy.as_str());
    parcel.write_string(c.certificate_pins.as_str());
    proof {
        assert(parcel.items() =~= old(parcel).items() + head_texts(*c));
    }
}

fn write_head(parcel: &mut MsgParcel, c: &TaskConfig)
    requires
        old(parcel).wf(),
    ensures
        final(parcel).wf(),
        final(parcel).items() == old(parcel).items() + config_head(*c),
{
    let ghost start = parcel.items();
    write_head_codes(parcel, c);
    write_head_flags(parcel, c);
    write_head_range(parcel, c);
    write_head_limits(parcel, c);
    write_head_texts(parcel, c);
    proof {
        assert(parcel.items() =~= start + config_head(*c));
    }
}

fn write_forms(parcel: &mut MsgParcel, v: &Vec<FormItem>)
    requires
        old(parcel).wf(),
    ensures
        final(parcel).wf(),
        final(parcel).items() == old(parcel).items() + seq![ParcelItem::U32(v@.len() as u32)]
            + forms_items(v@),
{
    parcel.write_u32(v.len() as u32);
    let ghost start = parcel.items();
    let mut i: usize = 0;
    while i < v.len()
        invariant
            parcel.wf(),
            i <= v@.len(),
            parcel.items() == start + forms_items(v@.take(i as int)),
        decreases v@.len() - i,
    {
        parcel.write_string(v[i].name.as_str());
        parcel.write_string(v[i].value.as_str());
        proof {
            assert(v@.take(i + 1).drop_last() =~= v@.take(i as int));
        }
        i = i + 1;
    }
    proof {
        assert(v@.take(v@.len() as int) =~= v@);
    }
}

fn write_files(parcel: &mut MsgParcel, v: &Vec<FileSpec>)
    requires
        old(parcel).wf(),
        user_files_open(v@),
    ensures
        final(parcel).wf(),
        final(parcel).items() == old(parcel).items() + seq![ParcelItem::U32(v@.len() as u32)]
            + files_items(v@),
{
    parcel.write_u32(v.len() as u32);
    let ghost start = parcel.items();
    let mut j: usize = 0;
    while j < v.len()
        invariant
            parcel.wf(),
            j <= v@.len(),
            user_files_open(v@),
            parcel.items() == start + files_items(v@.take(j as int)),
        decreases v@.len() - j,
    {
        let f = &v[j];
        let ghost before = parcel.items();
        parcel.write_string(f.name.as_str());
        parcel.write_string(f.path.as_str());
        parcel.write_string(f.file_name.as_str());
        parcel.write_string(f.mime_type.as_str());
        parcel.write_bool(f.is_user_file);
        if f.is_user_file {
            assert(v@[j as int].fd is Some);
            match f.fd {
                Some(fd) => parcel.write_fd(fd),
                None => {},
            }
        }
        proof {
            assert(parcel.items() =~= before + file_items(v@[j as int]));
            assert(v@.take(j + 1).drop_last() =~= v@.take(j as int));
        }
        j = j + 1;
    }
    proof {
        assert(v@.take(v@.len() as int) =~= v@);
    }
}

/// Writes a task configuration, with its headers and extras as the given
/// pairs, which are the configuration's own maps in some order of their
/// entries (stated where strings obey vstd's model of hashed keys).
#[verifier::rlimit(40)]
pub fn serialize(
    c: &TaskConfig,
    headers: &Vec<(String, String)>,
    extras: &Vec<(String, String)>,
    parcel: &mut MsgParcel,
)
    requires
        old(parcel).wf(),
        user_files_open(c.file_specs@),
        pairs_describe(headers@, c.headers@),
        pairs_describe(extras@, c.extras@),
    ensures
        final(parcel).wf(),
        final(parcel).items() == old(parcel).items() + config_items(
            *c,
            pair_texts(headers@),
            pair_texts(extras@),
        ),
{
    let ghost p0 = parcel.items();
    write_head(parcel, c);
    let ghost p1 = parcel.items();
    write_texts(parcel, &c.certs_path);
    let ghost p2 = parcel.items();
    write_forms(parcel, &c.form_items);
    let ghost p3 = parcel.items();
    write_files(parcel, &c.file_specs);
    let ghost p4 = parcel.items();
    write_texts(parcel, &c.body_file_paths);
    let ghost p5 = parcel.items();
    write_pairs(parcel, headers);
    let ghost p6 = parcel.items();
    write_pairs(parcel, extras);
    proof {
        assert(parcel.items() =~= p0 + config_items(*c, pair_texts(headers@), pair_texts(extras@)));
    }
}

/// Whether a message opens with the values of a task configuration, each of
/// the type it is written with.
pub open spec fn head_ok(s: Seq<ParcelItem>) -> bool {
    &&& s.len() >= 30
    &&& s[0] is U32 && s[1] is U32 && s[2] is U32 && s[3] is U32 && s[4] is Bool && s[5] is U32
    &&& s[6] is Bool && s[7] is Bool && s[8] is Bool && s[9] is Bool && s[10] is Bool && s[11] is Bool
    &&& s[12] is U32 && s[13] is I64 && s[14] is I64 && s[15] is Bool && s[16] is Bool && s[17] is U32
    &&& s[18] is I64 && s[19] is I64 && s[20] is U64 && s[21] is U64 && s[22] is Str && s[23] is Str
    &&& s[24] is Str && s[25] is Str && s[26] is Str && s[27] is Str && s[28] is Str && s[29] is Str
}

/// `n` texts read from the front of a message, and what is left.
pub open spec fn dec_texts(s: Seq<ParcelItem>, n: nat) -> Option<(Seq<Seq<char>>, Seq<ParcelItem>)>
    decreases n,
{
    if n == 0 {
        Some((Seq::empty(), s))
    } else {
        match dec_texts(s, (n - 1) as nat) {
            Some((v, t)) => match next_str(t) {
                Some(x) => Some((v.push(x), t.skip(1))),
                None => None,
            },
            None => None,
        }
    }
}

/// `n` pairs of texts read from the front of a message, and what is left.
pub open spec fn dec_pairs(s: Seq<ParcelItem>, n: nat) -> Option<
    (Seq<(Seq<char>, Seq<char>)>, Seq<ParcelItem>),
>
    decreases n,
{
    if n == 0 {
        Some((Seq::empty(), s))
    } else {
        match dec_pairs(s, (n - 1) as nat) {
            Some((v, t)) => match (next_str(t), next_str(t.skip(1))) {
                (Some(a), Some(b)) => Some((v.push((a, b)), t.skip(2))),
                _ => None,
            },
            None => None,
        }
    }
}

/// What is read of one file: name, path, file name, MIME type, and the
/// descriptor of a file handed in open.
pub type FileRecord = (Seq<char>, Seq<char>, Seq<char>, Seq<char>, Option<i32>);

/// One file read from the front of a message, and what is left: four
/// texts, a flag, and for a file handed in open its descriptor, which may
/// not be negative.
pub open spec fn dec_file(t: Seq<ParcelItem>) -> Option<(FileRecord, Seq<ParcelItem>)> {
    if t.len() >= 5 && t[0] is Str && t[1] is Str && t[2] is Str && t[3] is Str && t[4] is Bool {
        let fields = (t[0]->Str_0, t[1]->Str_0, t[2]->Str_0, t[3]->Str_0);
        if t[4]->Bool_0 {
            if t.len() >= 6 && t[5] is Fd && t[5]->Fd_0 >= 0 {
                Some(((fields.0, fields.1, fields.2, fields.3, Some(t[5]->Fd_0)), t.skip(6)))
            } else {
                None
            }
        } else {
            Some(((fields.0, fields.1, fields.2, fields.3, None), t.skip(5)))
        }
    } else {
        None
    }
}

/// `n` files read from the front of a message, and what is left.
pub open spec fn dec_files(s: Seq<ParcelItem>, n: nat) -> Option<(Seq<FileRecord>, Seq<ParcelItem>)>
    decreases n,
{
    if n == 0 {
        Some((Seq::empty(), s))
    } else {
        match dec_files(s, (n - 1) as nat) {
            Some((v, t)) => match dec_file(t) {
                Some((f, u)) => Some((v.push(f), u)),
                None => None,
            },
            None => None,
        }
    }
}

/// The length of a list, when it is read and does not exceed what is left
/// to read.
pub open spec fn dec_count(s: Seq<ParcelItem>) -> Option<nat> {
    match next_u32(s) {
        Some(n) => if n <= (s.len() - 1) as u32 {
            Some(n as nat)
        } else {
            None
        },
        None => None,
    }
}

/// What is read of a task configuration.
pub struct ConfigRecord {
    /// The opening values.
    pub head: Seq<ParcelItem>,
    /// The certificate paths.
    pub certs: Seq<Seq<char>>,
    /// The form fields, as names and values.
    pub forms: Seq<(Seq<char>, Seq<char>)>,
    /// The files.
    pub files: Seq<FileRecord>,
    /// The body file paths.
    pub bodies: Seq<Seq<char>>,
    /// The headers, as pairs.
    pub headers: Seq<(Seq<char>, Seq<char>)>,
    /// The extras, as pairs.
    pub extras: Seq<(Seq<char>, Seq<char>)>,
    /// What is left of the message.
    pub rest: Seq<ParcelItem>,
}

/// A task configuration read from the front of a message: the opening
/// values, then each list after its length; nothing when a value is
/// missing or of another type, a length exceeds what is left, or a file's
/// descriptor is negative.
pub open spec fn decode_config(s: Seq<ParcelItem>) -> Option<ConfigRecord> {
    if !head_ok(s) {
        None
    } else {
        let s1 = s.skip(30);
        match dec_count(s1) {
            None => None,
            Some(n1) => match dec_texts(s1.skip(1), n1) {
                None => None,
                Some((certs, s2)) => match dec_count(s2) {
                    None => None,
                    Some(n2) => match dec_pairs(s2.skip(1), n2) {
                        None => None,
                        Some((forms, s3)) => match dec_count(s3) {
                            None => None,
                            Some(n3) => match dec_files(s3.skip(1), n3) {
                                None => None,
                                Some((files, s4)) => match dec_count(s4) {
                                    None => None,
                                    Some(n4) => match dec_texts(s4.skip(1), n4) {
                                        None => None,
                                        Some((bodies, s5)) => match dec_count(s5) {
                                            None => None,
                                            Some(n5) => match dec_pairs(s5.skip(1), n5) {
                                                None => None,
                                                Some((headers, s6)) => match dec_count(s6) {
                                                    None => None,
                                                    Some(n6) => match dec_pairs(s6.skip(1), n6) {
                                                        None => None,
                                                        Some((extras, s7)) => Some(
                                                            ConfigRecord {
                                                                head: s.take(30),
                                                                certs,
                                                                forms,
                                                                files,
                                                                bodies,
                                                                headers,
                                                                extras,
                                                                rest: s7,
                                                            },
                                                        ),
                                                    },
                                                },
                                            },
                                        },
                                    },
                                },
                            },
                        },
                    },
                },
            },
        }
    }
}

proof fn lemma_dec_texts_none(s: Seq<ParcelItem>, k: nat, n: nat)
    requires
        k <= n,
        dec_texts(s, k) is None,
    ensures
        dec_texts(s, n) is None,
    decreases n,
{
    if k < n {
        lemma_dec_texts_none(s, k, (n - 1) as nat);
    }
}

proof fn lemma_dec_pairs_none(s: Seq<ParcelItem>, k: nat, n: nat)
    requires
        k <= n,
        dec_pairs(s, k) is None,
    ensures
        dec_pairs(s, n) is None,
    decreases n,
{
    if k < n {
        lemma_dec_pairs_none(s, k, (n - 1) as nat);
    }
}

proof fn lemma_dec_files_none(s: Seq<ParcelItem>, k: nat, n: nat)
    requires
        k <= n,
        dec_files(s, k) is None,
    ensures
        dec_files(s, n) is None,
    decreases n,
{
    if k < n {
        lemma_dec_files_none(s, k, (n - 1) as nat);
    }
}

/// Reads the length of a list and checks it against what is left.
fn read_count(parcel: &mut MsgParcel) -> (r: Option<u32>)
    requires
        old(parcel).wf(),
    ensures
        final(parcel).wf(),
        final(parcel).items() == old(parcel).items(),
        match dec_count(old(parcel).rest()) {
            Some(n) => r == Some(n as u32) && final(parcel).rest() == old(parcel).rest().skip(1),
            None => r is None,
        },
{
    let n = match parcel.read_u32() {
        Some(n) => n,
        None => return None,
    };
    if !count_fits(n, parcel.readable()) {
        return None;
    }
    Some(n)
}

/// Reads a list of texts after its length.
pub(crate) fn read_texts(parcel: &mut MsgParcel) -> (r: Option<Vec<String>>)
    requires
        old(parcel).wf(),
    ensures
        final(parcel).wf(),
        final(parcel).items() == old(parcel).items(),
        match dec_count(old(parcel).rest()) {
            None => r is None,
            Some(n) => match dec_texts(old(parcel).rest().skip(1), n) {
                None => r is None,
                Some((v, t)) => r matches Some(x) && texts(x@) == v && final(parcel).rest() == t,
            },
        },
{
    let n = match read_count(parcel) {
        Some(n) => n,
        None => return None,
    };
    let ghost s1 = parcel.rest();
    let mut out: Vec<String> = Vec::new();
    let mut i: u32 = 0;
    proof {
        assert(texts(out@) =~= Seq::<Seq<char>>::empty());
    }
    while i < n
        invariant
            parcel.wf(),
            parcel.items() == old(parcel).items(),
            i <= n,
            dec_count(old(parcel).rest()) == Some(n as nat),
            s1 == old(parcel).rest().skip(1),
            dec_texts(s1, i as nat) == Some((texts(out@), parcel.rest())),
        decreases n - i,
    {
        let ghost t = parcel.rest();
        match parcel.read_string() {
            Some(x) => {
                let ghost before = out@;
                out.push(x);
                proof {
                    assert(texts(out@) =~= texts(before).push(x@));
                }
            },
            None => {
                proof {
                    assert(dec_texts(s1, (i + 1) as nat) is None);
                    lemma_dec_texts_none(s1, (i + 1) as nat, n as nat);
                }
                return None;
            },
        }
        i = i + 1;
    }
    Some(out)
}

/// Reads a list of pairs of texts after its length.
fn read_pairs(parcel: &mut MsgParcel) -> (r: Option<Vec<(String, String)>>)
    requires
        old(parcel).wf(),
    ensures
        final(parcel).wf(),
        final(parcel).items() == old(parcel).items(),
        match dec_count(old(parcel).rest()) {
            None => r is None,
            Some(n) => match dec_pairs(old(parcel).rest().skip(1), n) {
                None => r is None,
                Some((v, t)) => r matches Some(x) && pair_texts(x@) == v && final(parcel).rest()
                    == t,
            },
        },
{
    let n = match read_count(parcel) {
        Some(n) => n,
        None => return None,
    };
    let ghost s1 = parcel.rest();
    let mut out: Vec<(String, String)> = Vec::new();
    let mut i: u32 = 0;
    proof {
        assert(pair_texts(out@) =~= Seq::<(Seq<char>, Seq<char>)>::empty());
    }
    while i < n
        invariant
            parcel.wf(),
            parcel.items() == old(parcel).items(),
            i <= n,
            dec_count(old(parcel).rest()) == Some(n as nat),
            s1 == old(parcel).rest().skip(1),
            dec_pairs(s1, i as nat) == Some((pair_texts(out@), parcel.rest())),
        decreases n - i,
    {
        let ghost t = parcel.rest();
        let a = match parcel.read_string() {
            Some(a) => a,
            None => {
                proof {
                    assert(dec_pairs(s1, (i + 1) as nat) is None);
                    lemma_dec_pairs_none(s1, (i + 1) as nat, n as nat);
                }
                return None;
            },
        };
        let b = match parcel.read_string() {
            Some(b) => b,
            None => {
                proof {
                    assert(dec_pairs(s1, (i + 1) as nat) is None);
                    lemma_dec_pairs_none(s1, (i + 1) as nat, n as nat);
                }
                return None;
            },
        };
        proof {
            assert(t.skip(1).skip(1) =~= t.skip(2));
        }
        let ghost before = out@;
        let ghost pair = (a@, b@);
        out.push((a, b));
        proof {
            assert(pair_texts(out@) =~= pair_texts(before).push(pair));
        }
        i = i + 1;
    }
    Some(out)
}

/// Whether a file specification holds what was read of a file.
pub open spec fn file_matches(f: FileSpec, rec: FileRecord) -> bool {
    &&& f.name@ == rec.0
    &&& f.path@ == rec.1
    &&& f.file_name@ == rec.2
    &&& f.mime_type@ == rec.3
    &&& f.is_user_file == rec.4 is Some
    &&& f.fd == rec.4
}

/// Reads one file.
fn read_file(parcel: &mut MsgParcel) -> (r: Option<FileSpec>)
    requires
        old(parcel).wf(),
    ensures
        final(parcel).wf(),
        final(parcel).items() == old(parcel).items(),
        match dec_file(old(parcel).rest()) {
            None => r is None,
            Some((rec, t)) => r matches Some(f) && file_matches(f, rec) && final(parcel).rest() == t,
        },
{
    let ghost t = parcel.rest();
    let name = match parcel.read_string() {
        Some(x) => x,
        None => return None,
    };
    let path = match parcel.read_string() {
        Some(x) => x,
        None => return None,
    };
    let file_name = match parcel.read_string() {
        Some(x) => x,
        None => return None,
    };
    let mime_type = match parcel.read_string() {
        Some(x) => x,
        None => return None,
    };
    let is_user_file = match parcel.read_bool() {
        Some(x) => x,
        None => return None,
    };
    proof {
        assert(t.skip(1).skip(1).skip(1).skip(1).skip(1) =~= t.skip(5));
        assert(t.skip(1)[0] == t[1]);
        assert(t.skip(1).skip(1)[0] == t[2]);
        assert(t.skip(1).skip(1).skip(1)[0] == t[3]);
        assert(t.skip(1).skip(1).skip(1).skip(1)[0] == t[4]);
    }
    let mut fd: Option<i32> = None;
    if is_user_file {
        let raw = match parcel.read_fd() {
            Some(x) => x,
            None => return None,
        };
        proof {
            assert(t.skip(5)[0] == t[5]);
            assert(t.skip(5).skip(1) =~= t.skip(6));
        }
        fd = received_fd(raw);
        if fd.is_none() {
            return None;
        }
    }
    Some(FileSpec { name, path, file_name, mime_type, is_user_file, fd })
}

/// Reads a list of files after its length.
fn read_files(parcel: &mut MsgParcel) -> (r: Option<Vec<FileSpec>>)
    requires
        old(parcel).wf(),
    ensures
        final(parcel).wf(),
        final(parcel).items() == old(parcel).items(),
        match dec_count(old(parcel).rest()) {
            None => r is None,
            Some(n) => match dec_files(old(parcel).rest().skip(1), n) {
                None => r is None,
                Some((v, t)) => r matches Some(x) && x@.len() == v.len() && (forall|j: int|
                    0 <= j < v.len() ==> file_matches(#[trigger] x@[j], v[j]))
                    && final(parcel).rest() == t,
            },
        },
{
    let n = match read_count(parcel) {
        Some(n) => n,
        None => return None,
    };
    let ghost s1 = parcel.rest();
    let mut out: Vec<FileSpec> = Vec::new();
    let ghost mut recs: Seq<FileRecord> = Seq::empty();
    let mut i: u32 = 0;
    while i < n
        invariant
            parcel.wf(),
            parcel.items() == old(parcel).items(),
            i <= n,
            dec_count(old(parcel).rest()) == Some(n as nat),
            s1 == old(parcel).rest().skip(1),
            dec_files(s1, i as nat) == Some((recs, parcel.rest())),
            out@.len() == recs.len(),
            forall|j: int| 0 <= j < recs.len() ==> file_matches(#[trigger] out@[j], recs[j]),
        decreases n - i,
    {
        let ghost t = parcel.rest();
        match read_file(parcel) {
            Some(f) => {
                proof {
                    recs = recs.push(dec_file(t).unwrap().0);
                }
                out.push(f);
            },
            None => {
                proof {
                    assert(dec_files(s1, (i + 1) as nat) is None);
                    lemma_dec_files_none(s1, (i + 1) as nat, n as nat);
                }
                return None;
            },
        }
        i = i + 1;
    }
    Some(out)
}

/// The opening values of a task configuration, as read.
pub struct ConfigHead {
    pub action: u32,
    pub version: u32,
    pub mode: u32,
    pub bundle_type: u32,
    pub cover: bool,
    pub network: u32,
    pub metered: bool,
    pub roaming: bool,
    pub retry: bool,
    pub redirect: bool,
    pub background: bool,
    pub multipart: bool,
    pub index: u32,
    pub begins: i64,
    pub ends: i64,
    pub gauge: bool,
    pub precise: bool,
    pub priority: u32,
    pub min_speed: i64,
    pub min_duration: i64,
    pub connection_timeout: u64,
    pub total_timeout: u64,
    pub url: String,
    pub title: String,
    pub method: String,
    pub token: String,
    pub description: String,
    pub data: String,
    pub proxy: String,
    pub certificate_pins: String,
}

/// Whether the opening values read hold what the message opened with.
pub open spec fn head_matches(h: ConfigHead, s: Seq<ParcelItem>) -> bool {
    &&& h.action == s[0]->U32_0
    &&& h.version == s[1]->U32_0
    &&& h.mode == s[2]->U32_0
    &&& h.bundle_type == s[3]->U32_0
    &&& h.cover == s[4]->Bool_0
    &&& h.network == s[5]->U32_0
    &&& h.metered == s[6]->Bool_0
    &&& h.roaming == s[7]->Bool_0
    &&& h.retry == s[8]->Bool_0
    &&& h.redirect == s[9]->Bool_0
    &&& h.background == s[10]->Bool_0
    &&& h.multipart == s[11]->Bool_0
    &&& h.index == s[12]->U32_0
    &&& h.begins == s[13]->I64_0
    &&& h.ends == s[14]->I64_0
    &&& h.gauge == s[15]->Bool_0
    &&& h.precise == s[16]->Bool_0
    &&& h.priority == s[17]->U32_0
    &&& h.min_speed == s[18]->I64_0
    &&& h.min_duration == s[19]->I64_0
    &&& h.connection_timeout == s[20]->U64_0
    &&& h.total_timeout == s[21]->U64_0
    &&& h.url@ == s[22]->Str_0
    &&& h.title@ == s[23]->Str_0
    &&& h.method@ == s[24]->Str_0
    &&& h.token@ == s[25]->Str_0
    &&& h.description@ == s[26]->Str_0
    &&& h.data@ == s[27]->Str_0
    &&& h.proxy@ == s[28]->Str_0
    &&& h.certificate_pins@ == s[29]->Str_0
}

proof fn lemma_skip_step(s: Seq<ParcelItem>, k: int)
    requires
        0 <= k < s.len(),
    ensures
        s.skip(k).skip(1) =~= s.skip(k + 1),
        s.skip(k)[0] == s[k],
{
}

fn read_u32_at(parcel: &mut MsgParcel, Ghost(s): Ghost<Seq<ParcelItem>>, Ghost(k): Ghost<int>) -> (r: Option<u32>)
    requires
        old(parcel).wf(),
        0 <= k <= s.len(),
        old(parcel).rest() == s.skip(k),
    ensures
        final(parcel).wf(),
        final(parcel).items() == old(parcel).items(),
        r is Some <==> (k < s.len() && s[k] is U32),
        r matches Some(x) ==> x == s[k]->U32_0 && final(parcel).rest() == s.skip(k + 1),
{
    proof {
        if k < s.len() {
            lemma_skip_step(s, k);
        }
    }
    parcel.read_u32()
}

fn read_bool_at(parcel: &mut MsgParcel, Ghost(s): Ghost<Seq<ParcelItem>>, Ghost(k): Ghost<int>) -> (r: Option<bool>)
    requires
        old(parcel).wf(),
        0 <= k <= s.len(),
        old(parcel).rest() == s.skip(k),
    ensures
        final(parcel).wf(),
        final(parcel).items() == old(parcel).items(),
        r is Some <==> (k < s.len() && s[k] is Bool),
        r matches Some(x) ==> x == s[k]->Bool_0 && final(parcel).rest() == s.skip(k + 1),
{
    proof {
        if k < s.len() {
            lemma_skip_step(s, k);
        }
    }
    parcel.read_bool()
}

fn read_i64_at(parcel: &mut MsgParcel, Ghost(s): Ghost<Seq<ParcelItem>>, Ghost(k): Ghost<int>) -> (r: Option<i64>)
    requires
        old(parcel).wf(),
        0 <= k <= s.len(),
        old(parcel).rest() == s.skip(k),
    ensures
        final(parcel).wf(),
        final(parcel).items() == old(parcel).items(),
        r is Some <==> (k < s.len() && s[k] is I64),
        r matches Some(x) ==> x == s[k]->I64_0 && final(parcel).rest() == s.skip(k + 1),
{
    proof {
        if k < s.len() {
            lemma_skip_step(s, k);
        }
    }
    parcel.read_i64()
}

fn read_u64_at(parcel: &mut MsgParcel, Ghost(s): Ghost<Seq<ParcelItem>>, Ghost(k): Ghost<int>) -> (r: Option<u64>)
    requires
        old(parcel).wf(),
        0 <= k <= s.len(),
        old(parcel).rest() == s.skip(k),
    ensures
        final(parcel).wf(),
        final(parcel).items() == old(parcel).items(),
        r is Some <==> (k < s.len() && s[k] is U64),
        r matches Some(x) ==> x == s[k]->U64_0 && final(parcel).rest() == s.skip(k + 1),
{
    proof {
        if k < s.len() {
            lemma_skip_step(s, k);
        }
    }
    parcel.read_u64()
}

fn read_str_at(parcel: &mut MsgParcel, Ghost(s): Ghost<Seq<ParcelItem>>, Ghost(k): Ghost<int>) -> (r: Option<String>)
    requires
        old(parcel).wf(),
        0 <= k <= s.len(),
        old(parcel).rest() == s.skip(k),
    ensures
        final(parcel).wf(),
        final(parcel).items() == old(parcel).items(),
        r is Some <==> (k < s.len() && s[k] is Str),
        r matches Some(x) ==> x@ == s[k]->Str_0 && final(parcel).rest() == s.skip(k + 1),
{
    proof {
        if k < s.len() {
            lemma_skip_step(s, k);
        }
    }
    parcel.read_string()
}

fn read_head_0(parcel: &mut MsgParcel, Ghost(s): Ghost<Seq<ParcelItem>>) -> (r: Option<(u32, u32, u32, u32, bool, u32)>)
    requires
        old(parcel).wf(),
        old(parcel).rest() == s.skip(0),
    ensures
        final(parcel).wf(),
        final(parcel).items() == old(parcel).items(),
        r is Some <==> (s.len() >= 6 && s[0] is U32 && s[1] is U32 && s[2] is U32 && s[3] is U32 && s[4] is Bool && s[5] is U32),
        r matches Some(x) ==> {
            &&& x.0 == s[0]->U32_0
            &&& x.1 == s[1]->U32_0
            &&& x.2 == s[2]->U32_0
            &&& x.3 == s[3]->U32_0
            &&& x.4 == s[4]->Bool_0
            &&& x.5 == s[5]->U32_0
            &&& final(parcel).rest() == s.skip(6)
        },
{
    let action = match read_u32_at(parcel, Ghost(s), Ghost(0)) {
        Some(x) => x,
        None => return None,
    };
    let version = match read_u32_at(parcel, Ghost(s), Ghost(1)) {
        Some(x) => x,
        None => return None,
    };
    let mode = match read_u32_at(parcel, Ghost(s), Ghost(2)) {
        Some(x) => x,
        None => return None,
    };
    let bundle_type = match read_u32_at(parcel, Ghost(s), Ghost(3)) {
        Some(x) => x,
        None => return None,
    };
    let cover = match read_bool_at(parcel, Ghost(s), Ghost(4)) {
        Some(x) => x,
        None => return None,
    };
    let network = match read_u32_at(parcel, Ghost(s), Ghost(5)) {
        Some(x) => x,
        None => return None,
    };
    Some((action, version, mode, bundle_type, cover, network))
}

fn read_head_1(parcel: &mut MsgParcel, Ghost(s): Ghost<Seq<ParcelItem>>) -> (r: Option<(bool, bool, bool, bool, bool, bool)>)
    requires
        old(parcel).wf(),
        s.len() >= 6,
        old(parcel).rest() == s.skip(6),
    ensures
        final(parcel).wf(),
        final(parcel).items() == old(parcel).items(),
        r is Some <==> (s.len() >= 12 && s[6] is Bool && s[7] is Bool && s[8] is Bool && s[9] is Bool && s[10] is Bool && s[11] is Bool),
        r matches Some(x) ==> {
            &&& x.0 == s[6]->Bool_0
            &&& x.1 == s[7]->Bool_0
            &&& x.2 == s[8]->Bool_0
            &&& x.3 == s[9]->Bool_0
            &&& x.4 == s[10]->Bool_0
            &&& x.5 == s[11]->Bool_0
            &&& final(parcel).rest() == s.skip(12)
        },
{
    let metered = match read_bool_at(parcel, Ghost(s), Ghost(6)) {
        Some(x) => x,
        None => return None,
    };
    let roaming = match read_bool_at(parcel, Ghost(s), Ghost(7)) {
        Some(x) => x,
        None => return None,
    };
    let retry = match read_bool_at(parcel, Ghost(s), Ghost(8)) {
        Some(x) => x,
        None => return None,
    };
    let redirect = match read_bool_at(parcel, Ghost(s), Ghost(9)) {
        Some(x) => x,
        None => return None,
    };
    let background = match read_bool_at(parcel, Ghost(s), Ghost(10)) {
        Some(x) => x,
        None => return None,
    };
    let multipart = match read_bool_at(parcel, Ghost(s), Ghost(11)) {
        Some(x) => x,
        None => return None,
    };
    Some((metered, roaming, retry, redirect, background, multipart))
}

fn read_head_2(parcel: &mut MsgParcel, Ghost(s): Ghost<Seq<ParcelItem>>) -> (r: Option<(u32, i64, i64, bool, bool, u32)>)
    requires
        old(parcel).wf(),
        s.len() >= 12,
        old(parcel).rest() == s.skip(12),
    ensures
        final(parcel).wf(),
        final(parcel).items() == old(parcel).items(),
        r is Some <==> (s.len() >= 18 && s[12] is U32 && s[13] is I64 && s[14] is I64 && s[15] is Bool && s[16] is Bool && s[17] is U32),
        r matches Some(x) ==> {
            &&& x.0 == s[12]->U32_0
            &&& x.1 == s[13]->I64_0
            &&& x.2 == s[14]->I64_0
            &&& x.3 == s[15]->Bool_0
            &&& x.4 == s[16]->Bool_0
            &&& x.5 == s[17]->U32_0
            &&& final(parcel).rest() == s.skip(18)
        },
{
    let index = match read_u32_at(parcel, Ghost(s), Ghost(12)) {
        Some(x) => x,
        None => return None,
    };
    let begins = match read_i64_at(parcel, Ghost(s), Ghost(13)) {
        Some(x) => x,
        None => return None,
    };
    let ends = match read_i64_at(parcel, Ghost(s), Ghost(14)) {
        Some(x) => x,
        None => return None,
    };
    let gauge = match read_bool_at(parcel, Ghost(s), Ghost(15)) {
        Some(x) => x,
        None => return None,
    };
    let precise = match read_bool_at(parcel, Ghost(s), Ghost(16)) {
        Some(x) => x,
        None => return None,
    };
    let priority = match read_u32_at(parcel, Ghost(s), Ghost(17)) {
        Some(x) => x,
        None => return None,
    };
    Some((index, begins, ends, gauge, precise, priority))
}

fn read_head_3(parcel: &mut MsgParcel, Ghost(s): Ghost<Seq<ParcelItem>>) -> (r: Option<(i64, i64, u64, u64, String, String)>)
    requires
        old(parcel).wf(),
        s.len() >= 18,
        old(parcel).rest() == s.skip(18),
    ensures
        final(parcel).wf(),
        final(parcel).items() == old(parcel).items(),
        r is Some <==> (s.len() >= 24 && s[18] is I64 && s[19] is I64 && s[20] is U64 && s[21] is U64 && s[22] is Str && s[23] is Str),
        r matches Some(x) ==> {
            &&& x.0 == s[18]->I64_0
            &&& x.1 == s[19]->I64_0
            &&& x.2 == s[20]->U64_0
            &&& x.3 == s[21]->U64_0
            &&& x.4@ == s[22]->Str_0
            &&& x.5@ == s[23]->Str_0
            &&& final(parcel).rest() == s.skip(24)
        },
{
    let min_speed = match read_i64_at(parcel, Ghost(s), Ghost(18)) {
        Some(x) => x,
        None => return None,
    };
    let min_duration = match read_i64_at(parcel, Ghost(s), Ghost(19)) {
        Some(x) => x,
        None => return None,
    };
    let connection_timeout = match read_u64_at(parcel, Ghost(s), Ghost(20)) {
        Some(x) => x,
        None => return None,
    };
    let total_timeout = match read_u64_at(parcel, Ghost(s), Ghost(21)) {
        Some(x) => x,
        None => return None,
    };
    let url = match read_str_at(parcel, Ghost(s), Ghost(22)) {
        Some(x) => x,
        None => return None,
    };
    let title = match read_str_at(parcel, Ghost(s), Ghost(23)) {
        Some(x) => x,
        None => return None,
    };
    Some((min_speed, min_duration, connection_timeout, total_timeout, url, title))
}

fn read_head_4(parcel: &mut MsgParcel, Ghost(s): Ghost<Seq<ParcelItem>>) -> (r: Option<(String, String, String, String, String, String)>)
    requires
        old(parcel).wf(),
        s.len() >= 24,
        old(parcel).rest() == s.skip(24),
    ensures
        final(parcel).wf(),
        final(parcel).items() == old(parcel).items(),
        r is Some <==> (s.len() >= 30 && s[24] is Str && s[25] is Str && s[26] is Str && s[27] is Str && s[28] is Str && s[29] is Str),
        r matches Some(x) ==> {
            &&& x.0@ == s[24]->Str_0
            &&& x.1@ == s[25]->Str_0
            &&& x.2@ == s[26]->Str_0
            &&& x.3@ == s[27]->Str_0
            &&& x.4@ == s[28]->Str_0
            &&& x.5@ == s[29]->Str_0
            &&& final(parcel).rest() == s.skip(30)
        },
{
    let method = match read_str_at(parcel, Ghost(s), Ghost(24)) {
        Some(x) => x,
        None => return None,
    };
    let token = match read_str_at(parcel, Ghost(s), Ghost(25)) {
        Some(x) => x,
        None => return None,
    };
    let description = match read_str_at(parcel, Ghost(s), Ghost(26)) {
        Some(x) => x,
        None => return None,
    };
    let data = match read_str_at(parcel, Ghost(s), Ghost(27)) {
        Some(x) => x,
        None => return None,
    };
    let proxy = match read_str_at(parcel, Ghost(s), Ghost(28)) {
        Some(x) => x,
        None => return None,
    };
    let certificate_pins = match read_str_at(parcel, Ghost(s), Ghost(29)) {
        Some(x) => x,
        None => return None,
    };
    Some((method, token, description, data, proxy, certificate_pins))
}

/// Reads the opening values of a task configuration.
fn read_head(parcel: &mut MsgParcel) -> (r: Option<ConfigHead>)
    requires
        old(parcel).wf(),
    ensures
        final(parcel).wf(),
        final(parcel).items() == old(parcel).items(),
        r is Some <==> head_ok(old(parcel).rest()),
        r matches Some(h) ==> head_matches(h, old(parcel).rest()) && final(parcel).rest() == old(
            parcel,
        ).rest().skip(30),
{
    let ghost s = parcel.rest();
    proof {
        assert(s.skip(0) =~= s);
    }
    let g0 = match read_head_0(parcel, Ghost(s)) {
        Some(x) => x,
        None => return None,
    };
    let g1 = match read_head_1(parcel, Ghost(s)) {
        Some(x) => x,
        None => return None,
    };
    let g2 = match read_head_2(parcel, Ghost(s)) {
        Some(x) => x,
        None => return None,
    };
    let g3 = match read_head_3(parcel, Ghost(s)) {
        Some(x) => x,
        None => return None,
    };
    let g4 = match read_head_4(parcel, Ghost(s)) {
        Some(x) => x,
        None => return None,
    };
    Some(ConfigHead {
        action: g0.0,
        version: g0.1,
        mode: g0.2,
        bundle_type: g0.3,
        cover: g0.4,
        network: g0.5,
        metered: g1.0,
        roaming: g1.1,
        retry: g1.2,
        redirect: g1.3,
        background: g1.4,
        multipart: g1.5,
        index: g2.0,
        begins: g2.1,
        ends: g2.2,
        gauge: g2.3,
        precise: g2.4,
        priority: g2.5,
        min_speed: g3.0,
        min_duration: g3.1,
        connection_timeout: g3.2,
        total_timeout: g3.3,
        url: g3.4,
        title: g3.5,
        method: g4.0,
        token: g4.1,
        description: g4.2,
        data: g4.3,
        proxy: g4.4,
        certificate_pins: g4.5,
    })
}

/// Whether the headers and extras of a task configuration hold those read
/// of one: under the key model of `String`, each map is made of pairs
/// whose texts are those read.
pub open spec fn maps_match(c: TaskConfig, d: ConfigRecord) -> bool {
    &&& obeys_key_model::<String>() ==> exists|h: Seq<(String, String)>|
        pair_texts(h) == d.headers && #[trigger] pairs_map(h) == c.headers@
    &&& obeys_key_model::<String>() ==> exists|e: Seq<(String, String)>|
        pair_texts(e) == d.extras && #[trigger] pairs_map(e) == c.extras@
}

/// Whether a task configuration holds what was read of one, for a caller
/// with the given bundle, user, token and account. Codes outside their
/// range are read as `From<u8>` reads them; the start of the range is read
/// back as unsigned.
pub open spec fn config_matches(
    c: TaskConfig,
    d: ConfigRecord,
    bundle: Seq<char>,
    uid: u64,
    token_id: u64,
    account: Seq<char>,
) -> bool {
    let s = d.head;
    let cd = c.common_data;
    &&& cd.action == action_of_code((s[0]->U32_0) as u8)
    &&& c.version == version_of_code((s[1]->U32_0) as u8)
    &&& cd.mode == mode_of_code((s[2]->U32_0) as u8)
    &&& c.bundle_type == s[3]->U32_0
    &&& cd.cover == s[4]->Bool_0
    &&& cd.network_config == network_of_code((s[5]->U32_0) as u8)
    &&& cd.metered == s[6]->Bool_0
    &&& cd.roaming == s[7]->Bool_0
    &&& cd.retry == s[8]->Bool_0
    &&& cd.redirect == s[9]->Bool_0
    &&& cd.background == s[10]->Bool_0
    &&& cd.multipart == s[11]->Bool_0
    &&& cd.index == s[12]->U32_0
    &&& cd.begins == (s[13]->I64_0) as u64
    &&& cd.ends == s[14]->I64_0
    &&& cd.gauge == s[15]->Bool_0
    &&& cd.precise == s[16]->Bool_0
    &&& cd.priority == s[17]->U32_0
    &&& cd.min_speed.speed == s[18]->I64_0
    &&& cd.min_speed.duration == s[19]->I64_0
    &&& cd.timeout.connection_timeout == s[20]->U64_0
    &&& cd.timeout.total_timeout == s[21]->U64_0
    &&& c.url@ == s[22]->Str_0
    &&& c.title@ == s[23]->Str_0
    &&& c.method@ == s[24]->Str_0
    &&& c.token@ == s[25]->Str_0
    &&& c.description@ == s[26]->Str_0
    &&& c.data@ == s[27]->Str_0
    &&& c.proxy@ == s[28]->Str_0
    &&& c.certificate_pins@ == s[29]->Str_0
    &&& texts(c.certs_path@) == d.certs
    &&& form_texts(c.form_items@) == d.forms
    &&& c.file_specs@.len() == d.files.len()
    &&& forall|j: int| 0 <= j < d.files.len() ==> file_matches(#[trigger] c.file_specs@[j], d.files[j])
    &&& texts(c.body_file_paths@) == d.bodies
    &&& c.bundle@ == bundle
    &&& cd.uid == uid
    &&& cd.token_id == token_id
    &&& cd.task_id == 0
    &&& c.atomic_account@ == if c.bundle_type == ATOMIC_SERVICE {
        account
    } else {
        Seq::<char>::empty()
    }
}

/// The names and values of form fields.
pub open spec fn form_texts(v: Seq<FormItem>) -> Seq<(Seq<char>, Seq<char>)> {
    v.map_values(|f: FormItem| (f.name@, f.value@))
}

fn form_items_of(pairs: &Vec<(String, String)>) -> (r: Vec<FormItem>)
    ensures
        form_texts(r@) == pair_texts(pairs@),
{
    let mut r: Vec<FormItem> = Vec::new();
    let mut i: usize = 0;
    while i < pairs.len()
        invariant
            i <= pairs@.len(),
            form_texts(r@) == pair_texts(pairs@).take(i as int),
        decreases pairs@.len() - i,
    {
        let name = pairs[i].0.clone();
        let value = pairs[i].1.clone();
        let ghost before = form_texts(r@);
        r.push(FormItem { name, value });
        proof {
            assert(form_texts(r@) =~= before.push(pair_texts(pairs@)[i as int]));
            assert(pair_texts(pairs@).take(i + 1) =~= pair_texts(pairs@).take(i as int).push(
                pair_texts(pairs@)[i as int],
            ));
        }
        i = i + 1;
    }
    proof {
        assert(pair_texts(pairs@).take(pairs@.len() as int) =~= pair_texts(pairs@));
    }
    r
}

/// The map that inserting the pairs in order makes: a later pair wins over
/// an earlier one with the same key.
pub open spec fn pairs_map(pairs: Seq<(String, String)>) -> Map<String, String>
    decreases pairs.len(),
{
    if pairs.len() == 0 {
        Map::empty()
    } else {
        pairs_map(pairs.drop_last()).insert(pairs.last().0, pairs.last().1)
    }
}

/// Whether pairs are the entries of a map in some order, where strings
/// obey vstd's model of hashed keys: inserting them in order makes the map.
#[verifier::opaque]
pub open spec fn pairs_describe(pairs: Seq<(String, String)>, m: Map<String, String>) -> bool {
    obeys_key_model::<String>() ==> pairs_map(pairs) == m
}

/// The map of `pairs`, inserted in order: a later pair wins over an earlier
/// one with the same key (stated where strings obey vstd's model of hashed
/// keys).
pub fn map_of(pairs: &Vec<(String, String)>) -> (r: HashMap<String, String>)
    ensures
        obeys_key_model::<String>() ==> r@ == pairs_map(pairs@),
{
    let mut m: HashMap<String, String> = HashMap::new();
    proof {
        broadcast use axiom_random_state_builds_valid_hashers;

        assert(pairs@.take(0) =~= Seq::<(String, String)>::empty());
    }
    let mut i: usize = 0;
    while i < pairs.len()
        invariant
            i <= pairs@.len(),
            builds_valid_hashers::<RandomState>(),
            obeys_key_model::<String>() ==> m@ == pairs_map(pairs@.take(i as int)),
        decreases pairs@.len() - i,
    {
        m.insert(pairs[i].0.clone(), pairs[i].1.clone());
        proof {
            assert(pairs@.take(i + 1).drop_last() =~= pairs@.take(i as int));
        }
        i = i + 1;
    }
    proof {
        assert(pairs@.take(pairs@.len() as int) =~= pairs@);
    }
    m
}

/// Reads a task configuration for a caller with the given bundle, user,
/// token and account. Fails exactly when the message does not hold one;
/// the headers and extras become maps of the pairs read, a later pair
/// winning over an earlier one with the same key (stated where strings
/// obey vstd's model of hashed keys).
pub fn deserialize(
    parcel: &mut MsgParcel,
    bundle: String,
    uid: u64,
    token_id: u64,
    account: String,
) -> (r: Option<TaskConfig>)
    requires
        old(parcel).wf(),
    ensures
        final(parcel).wf(),
        final(parcel).items() == old(parcel).items(),
        r is Some <==> decode_config(old(parcel).rest()) is Some,
        r matches Some(c) ==> {
            let d = decode_config(old(parcel).rest()).unwrap();
            &&& config_matches(c, d, bundle@, uid, token_id, account@)
            &&& final(parcel).rest() == d.rest
            &&& obeys_key_model::<String>() ==> exists|h: Seq<(String, String)>|
                pair_texts(h) == d.headers && #[trigger] pairs_map(h) == c.headers@
            &&& obeys_key_model::<String>() ==> exists|e: Seq<(String, String)>|
                pair_texts(e) == d.extras && #[trigger] pairs_map(e) == c.extras@
        },
{
    let ghost s = parcel.rest();
    let h = match read_head(parcel) {
        Some(h) => h,
        None => return None,
    };
    let certs_path = match read_texts(parcel) {
        Some(v) => v,
        None => return None,
    };
    let forms = match read_pairs(parcel) {
        Some(v) => v,
        None => return None,
    };
    let file_specs = match read_files(parcel) {
        Some(v) => v,
        None => return None,
    };
    let body_file_paths = match read_texts(parcel) {
        Some(v) => v,
        None => return None,
    };
    let headers = match read_pairs(parcel) {
        Some(v) => v,
        None => return None,
    };
    let extras = match read_pairs(parcel) {
        Some(v) => v,
        None => return None,
    };
    let form_items = form_items_of(&forms);
    let atomic_account = atomic_account_of(h.bundle_type, account);
    let c = TaskConfig {
        bundle,
        bundle_type: h.bundle_type,
        atomic_account,
        url: h.url,
        title: h.title,
        description: h.description,
        method: h.method,
        headers: map_of(&headers),
        data: h.data,
        token: h.token,
        proxy: h.proxy,
        certificate_pins: h.certificate_pins,
        extras: map_of(&extras),
        version: Version::from(h.version as u8),
        form_items,
        file_specs,
        body_file_paths,
        certs_path,
        common_data: CommonTaskConfig {
            task_id: 0,
            uid,
            token_id,
            action: Action::from(h.action as u8),
            mode: Mode::from(h.mode as u8),
            cover: h.cover,
            network_config: NetworkConfig::from(h.network as u8),
            metered: h.metered,
            roaming: h.roaming,
            retry: h.retry,
            redirect: h.redirect,
            index: h.index,
            begins: h.begins as u64,
            ends: h.ends,
            gauge: h.gauge,
            precise: h.precise,
            priority: h.priority,
            background: h.background,
            multipart: h.multipart,
            min_speed: MinSpeed { speed: h.min_speed, duration: h.min_duration },
            timeout: Timeout {
                connection_timeout: h.connection_timeout,
                total_timeout: h.total_timeout,
            },
        },
    };
    Some(c)
}

/// What is read of a file that was written.
pub open spec fn file_record(f: FileSpec) -> FileRecord {
    (f.name@, f.path@, f.file_name@, f.mime_type@, if f.is_user_file {
        f.fd
    } else {
        None
    })
}

/// What is read of files that were written.
pub open spec fn file_records(v: Seq<FileSpec>) -> Seq<FileRecord> {
    v.map_values(|f: FileSpec| file_record(f))
}

/// Whether every file handed in open carries a descriptor that is not
/// negative.
pub open spec fn user_fds_valid(v: Seq<FileSpec>) -> bool {
    forall|i: int|
        0 <= i < v.len() && (#[trigger] v[i]).is_user_file ==> v[i].fd is Some && v[i].fd.unwrap()
            >= 0
}

proof fn lemma_texts_items_len(v: Seq<Seq<char>>)
    ensures
        texts_items(v).len() == v.len(),
    decreases v.len(),
{
    if v.len() > 0 {
        lemma_texts_items_len(v.drop_last());
    }
}

proof fn lemma_pairs_items_len(v: Seq<(Seq<char>, Seq<char>)>)
    ensures
        pairs_items(v).len() == 2 * v.len(),
    decreases v.len(),
{
    if v.len() > 0 {
        lemma_pairs_items_len(v.drop_last());
    }
}

proof fn lemma_files_items_len(v: Seq<FileSpec>)
    ensures
        files_items(v).len() >= v.len(),
    decreases v.len(),
{
    if v.len() > 0 {
        lemma_files_items_len(v.drop_last());
    }
}

proof fn lemma_forms_as_pairs(v: Seq<FormItem>)
    ensures
        forms_items(v) == pairs_items(form_texts(v)),
    decreases v.len(),
{
    if v.len() > 0 {
        lemma_forms_as_pairs(v.drop_last());
        assert(form_texts(v).drop_last() =~= form_texts(v.drop_last()));
    } else {
        assert(form_texts(v) =~= Seq::<(Seq<char>, Seq<char>)>::empty());
    }
}

proof fn lemma_dec_texts_items(v: Seq<Seq<char>>, t: Seq<ParcelItem>)
    ensures
        dec_texts(texts_items(v) + t, v.len()) == Some((v, t)),
    decreases v.len(),
{
    if v.len() > 0 {
        let w = v.drop_last();
        let u = seq![ParcelItem::Str(v.last())] + t;
        assert(texts_items(v) + t =~= texts_items(w) + u);
        lemma_dec_texts_items(w, u);
        assert(u.skip(1) =~= t);
        assert(w.push(v.last()) =~= v);
    } else {
        assert(texts_items(v) + t =~= t);
        assert(v =~= Seq::<Seq<char>>::empty());
    }
}

proof fn lemma_dec_pairs_items(v: Seq<(Seq<char>, Seq<char>)>, t: Seq<ParcelItem>)
    ensures
        dec_pairs(pairs_items(v) + t, v.len()) == Some((v, t)),
    decreases v.len(),
{
    if v.len() > 0 {
        let w = v.drop_last();
        let u = seq![ParcelItem::Str(v.last().0), ParcelItem::Str(v.last().1)] + t;
        assert(pairs_items(v) + t =~= pairs_items(w) + u);
        lemma_dec_pairs_items(w, u);
        assert(u.skip(1)[0] == ParcelItem::Str(v.last().1));
        assert(u.skip(2) =~= t);
        assert(w.push(v.last()) =~= v);
    } else {
        assert(pairs_items(v) + t =~= t);
        assert(v =~= Seq::<(Seq<char>, Seq<char>)>::empty());
    }
}

proof fn lemma_dec_file_items(f: FileSpec, t: Seq<ParcelItem>)
    requires
        f.is_user_file ==> f.fd is Some && f.fd.unwrap() >= 0,
    ensures
        dec_file(file_items(f) + t) == Some((file_record(f), t)),
{
    let u = file_items(f) + t;
    if f.is_user_file {
        assert(u[5] == ParcelItem::Fd(f.fd.unwrap()));
        assert(u.skip(6) =~= t);
    } else {
        assert(u.skip(5) =~= t);
    }
}

proof fn lemma_dec_files_items(v: Seq<FileSpec>, t: Seq<ParcelItem>)
    requires
        user_fds_valid(v),
    ensures
        dec_files(files_items(v) + t, v.len()) == Some((file_records(v), t)),
    decreases v.len(),
{
    if v.len() > 0 {
        let w = v.drop_last();
        let u = file_items(v.last()) + t;
        assert(files_items(v) + t =~= files_items(w) + u);
        assert(user_fds_valid(w)) by {
            assert forall|i: int| 0 <= i < w.len() && (#[trigger] w[i]).is_user_file implies w[i].fd
                is Some && w[i].fd.unwrap() >= 0 by {
                assert(w[i] == v[i]);
            }
        }
        lemma_dec_files_items(w, u);
        assert(v.last() == v[v.len() - 1]);
        lemma_dec_file_items(v.last(), t);
        assert(file_records(w).push(file_record(v.last())) =~= file_records(v));
    } else {
        assert(files_items(v) + t =~= t);
        assert(file_records(v) =~= Seq::<FileRecord>::empty());
    }
}

proof fn lemma_dec_count(n: nat, body: Seq<ParcelItem>, t: Seq<ParcelItem>)
    requires
        n <= body.len(),
        body.len() + t.len() < 0x1_0000_0000,
    ensures
        dec_count(seq![ParcelItem::U32(n as u32)] + body + t) == Some(n),
        (seq![ParcelItem::U32(n as u32)] + body + t).skip(1) == body + t,
{
    let s = seq![ParcelItem::U32(n as u32)] + body + t;
    assert(s.skip(1) =~= body + t);
    assert((s.len() - 1) as u32 == s.len() - 1);
}

proof fn lemma_head_read(c: TaskConfig, t: Seq<ParcelItem>)
    ensures
        head_ok(config_head(c) + t),
        (config_head(c) + t).take(30) == config_head(c),
        (config_head(c) + t).skip(30) == t,
{
    let s = config_head(c) + t;
    assert(config_head(c).len() == 30);
    assert(s.take(30) =~= config_head(c));
    assert(s.skip(30) =~= t);
}

/// The last three lists of a written configuration, read from where they
/// start.
proof fn lemma_back_lists(
    bodies: Seq<Seq<char>>,
    headers: Seq<(Seq<char>, Seq<char>)>,
    extras: Seq<(Seq<char>, Seq<char>)>,
    tail: Seq<ParcelItem>,
)
    requires
        1 + texts_items(bodies).len() + 1 + pairs_items(headers).len() + 1 + pairs_items(
            extras,
        ).len() + tail.len() < 0x1_0000_0000,
    ensures
        ({
            let t6 = seq![ParcelItem::U32(extras.len() as u32)] + pairs_items(extras) + tail;
            let t5 = seq![ParcelItem::U32(headers.len() as u32)] + pairs_items(headers) + t6;
            let t4 = seq![ParcelItem::U32(bodies.len() as u32)] + texts_items(bodies) + t5;
            &&& dec_count(t4) == Some(bodies.len())
            &&& dec_texts(t4.skip(1), bodies.len()) == Some((bodies, t5))
            &&& dec_count(t5) == Some(headers.len())
            &&& dec_pairs(t5.skip(1), headers.len()) == Some((headers, t6))
            &&& dec_count(t6) == Some(extras.len())
            &&& dec_pairs(t6.skip(1), extras.len()) == Some((extras, tail))
        }),
{
    lemma_texts_items_len(bodies);
    lemma_pairs_items_len(headers);
    lemma_pairs_items_len(extras);
    let t6 = seq![ParcelItem::U32(extras.len() as u32)] + pairs_items(extras) + tail;
    let t5 = seq![ParcelItem::U32(headers.len() as u32)] + pairs_items(headers) + t6;
    lemma_dec_count(bodies.len(), texts_items(bodies), t5);
    lemma_dec_texts_items(bodies, t5);
    lemma_dec_count(headers.len(), pairs_items(headers), t6);
    lemma_dec_pairs_items(headers, t6);
    lemma_dec_count(extras.len(), pairs_items(extras), tail);
    lemma_dec_pairs_items(extras, tail);
}

/// The first three lists of a written configuration, read from where they
/// start.
proof fn lemma_front_lists(
    certs: Seq<Seq<char>>,
    forms: Seq<(Seq<char>, Seq<char>)>,
    files: Seq<FileSpec>,
    t4: Seq<ParcelItem>,
)
    requires
        user_fds_valid(files),
        1 + texts_items(certs).len() + 1 + pairs_items(forms).len() + 1 + files_items(files).len()
            + t4.len() < 0x1_0000_0000,
    ensures
        ({
            let t3 = seq![ParcelItem::U32(files.len() as u32)] + files_items(files) + t4;
            let t2 = seq![ParcelItem::U32(forms.len() as u32)] + pairs_items(forms) + t3;
            let t1 = seq![ParcelItem::U32(certs.len() as u32)] + texts_items(certs) + t2;
            &&& dec_count(t1) == Some(certs.len())
            &&& dec_texts(t1.skip(1), certs.len()) == Some((certs, t2))
            &&& dec_count(t2) == Some(forms.len())
            &&& dec_pairs(t2.skip(1), forms.len()) == Some((forms, t3))
            &&& dec_count(t3) == Some(files.len())
            &&& dec_files(t3.skip(1), files.len()) == Some((file_records(files), t4))
        }),
{
    lemma_texts_items_len(certs);
    lemma_pairs_items_len(forms);
    lemma_files_items_len(files);
    let t3 = seq![ParcelItem::U32(files.len() as u32)] + files_items(files) + t4;
    let t2 = seq![ParcelItem::U32(forms.len() as u32)] + pairs_items(forms) + t3;
    lemma_dec_count(certs.len(), texts_items(certs), t2);
    lemma_dec_texts_items(certs, t2);
    lemma_dec_count(forms.len(), pairs_items(forms), t3);
    lemma_dec_pairs_items(forms, t3);
    lemma_dec_count(files.len(), files_items(files), t4);
    lemma_dec_files_items(files, t4);
}

/// A task configuration written to a message is read back whole: the same
/// opening values, certificate paths, form fields, files, body files, and
/// header and extra pairs, with what followed it left to read. This holds
/// when every file handed in open has a descriptor that is not negative,
/// and the message is shorter than 2^32 values.
#[verifier::spinoff_prover]
#[verifier::rlimit(40)]
pub proof fn lemma_config_round_trip(
    c: TaskConfig,
    headers: Seq<(Seq<char>, Seq<char>)>,
    extras: Seq<(Seq<char>, Seq<char>)>,
    tail: Seq<ParcelItem>,
)
    requires
        user_fds_valid(c.file_specs@),
        config_items(c, headers, extras).len() + tail.len() < 0x1_0000_0000,
    ensures
        decode_config(config_items(c, headers, extras) + tail) == Some(
            ConfigRecord {
                head: config_head(c),
                certs: texts(c.certs_path@),
                forms: form_texts(c.form_items@),
                files: file_records(c.file_specs@),
                bodies: texts(c.body_file_paths@),
                headers,
                extras,
                rest: tail,
            },
        ),
{
    let certs = texts(c.certs_path@);
    let forms = form_texts(c.form_items@);
    let bodies = texts(c.body_file_paths@);
    lemma_forms_as_pairs(c.form_items@);
    let t6 = seq![ParcelItem::U32(extras.len() as u32)] + pairs_items(extras) + tail;
    let t5 = seq![ParcelItem::U32(headers.len() as u32)] + pairs_items(headers) + t6;
    let t4 = seq![ParcelItem::U32(bodies.len() as u32)] + texts_items(bodies) + t5;
    let t3 = seq![ParcelItem::U32(c.file_specs@.len() as u32)] + files_items(c.file_specs@) + t4;
    let t2 = seq![ParcelItem::U32(forms.len() as u32)] + pairs_items(forms) + t3;
    let t1 = seq![ParcelItem::U32(certs.len() as u32)] + texts_items(certs) + t2;
    assert(config_items(c, headers, extras) + tail =~= config_head(c) + t1);
    lemma_head_read(c, t1);
    lemma_back_lists(bodies, headers, extras, tail);
    lemma_front_lists(certs, forms, c.file_specs@, t4);
}

/// The codes of a task configuration as it is handed back to its owner:
/// action, mode, bundle type, cover and network.
pub open spec fn listed_codes(c: TaskConfig) -> Seq<ParcelItem> {
    seq![
        ParcelItem::U32(action_code(c.common_data.action) as u32),
        ParcelItem::U32(mode_code(c.common_data.mode) as u32),
        ParcelItem::U32(c.bundle_type),
        ParcelItem::Bool(c.common_data.cover),
        ParcelItem::U32(network_code(c.common_data.network_config) as u32),
    ]
}

/// The network and retry flags that follow the codes.
pub open spec fn listed_flags(c: TaskConfig) -> Seq<ParcelItem> {
    seq![
        ParcelItem::Bool(c.common_data.metered),
        ParcelItem::Bool(c.common_data.roaming),
        ParcelItem::Bool(c.common_data.retry),
        ParcelItem::Bool(c.common_data.redirect),
    ]
}

/// The transfer settings that follow the flags: file index, range,
/// gauge, precision, priority, background and multipart.
pub open spec fn listed_range(c: TaskConfig) -> Seq<ParcelItem> {
    seq![
        ParcelItem::U32(c.common_data.index),
        ParcelItem::U64(c.common_data.begins),
        ParcelItem::I64(c.common_data.ends),
        ParcelItem::Bool(c.common_data.gauge),
        ParcelItem::Bool(c.common_data.precise),
        ParcelItem::U32(c.common_data.priority),
        ParcelItem::Bool(c.common_data.background),
        ParcelItem::Bool(c.common_data.multipart),
    ]
}

/// The settings of a task configuration as it is handed back to its owner.
pub open spec fn listed_settings(c: TaskConfig) -> Seq<ParcelItem> {
    listed_codes(c) + listed_flags(c) + listed_range(c)
}

/// The texts that follow the settings: bundle, URL, title, description and
/// method.
pub open spec fn listed_texts(c: TaskConfig) -> Seq<ParcelItem> {
    seq![
        ParcelItem::Str(c.bundle@),
        ParcelItem::Str(c.url@),
        ParcelItem::Str(c.title@),
        ParcelItem::Str(c.description@),
        ParcelItem::Str(c.method@),
    ]
}

/// A file as it is handed back: its name, path, file name and MIME type.
pub open spec fn listed_file_items(f: FileSpec) -> Seq<ParcelItem> {
    seq![
        ParcelItem::Str(f.name@),
        ParcelItem::Str(f.path@),
        ParcelItem::Str(f.file_name@),
        ParcelItem::Str(f.mime_type@),
    ]
}

/// Files as they are handed back.
pub open spec fn listed_files_items(v: Seq<FileSpec>) -> Seq<ParcelItem>
    decreases v.len(),
{
    if v.len() == 0 {
        Seq::empty()
    } else {
        listed_files_items(v.drop_last()) + listed_file_items(v.last())
    }
}

/// The headers, body, token, extras and version of a task configuration
/// as it is handed back, with its headers and extras as the given pairs.
pub open spec fn listed_middle(
    c: TaskConfig,
    headers: Seq<(Seq<char>, Seq<char>)>,
    extras: Seq<(Seq<char>, Seq<char>)>,
) -> Seq<ParcelItem> {
    seq![ParcelItem::U32(headers.len() as u32)] + pairs_items(headers) + seq![
        ParcelItem::Str(c.data@),
        ParcelItem::Str(c.token@),
    ] + seq![ParcelItem::U32(extras.len() as u32)] + pairs_items(extras) + seq![
        ParcelItem::U32(version_code(c.version) as u32),
    ]
}

/// The lists that end a task configuration as it is handed back: form
/// fields, files and body files, each after its count, then the least
/// speed and its duration.
pub open spec fn listed_lists(c: TaskConfig) -> Seq<ParcelItem> {
    seq![ParcelItem::U32(c.form_items@.len() as u32)] + forms_items(c.form_items@) + seq![
        ParcelItem::U32(c.file_specs@.len() as u32),
    ] + listed_files_items(c.file_specs@) + seq![
        ParcelItem::U32(c.body_file_paths@.len() as u32),
    ] + texts_items(texts(c.body_file_paths@)) + seq![
        ParcelItem::I64(c.common_data.min_speed.speed),
        ParcelItem::I64(c.common_data.min_speed.duration),
    ]
}

/// A task configuration as it is handed back to its owner, with its
/// headers and extras as the given pairs.
pub open spec fn listed_config_items(
    c: TaskConfig,
    headers: Seq<(Seq<char>, Seq<char>)>,
    extras: Seq<(Seq<char>, Seq<char>)>,
) -> Seq<ParcelItem> {
    listed_settings(c) + listed_texts(c) + listed_middle(c, headers, extras) + listed_lists(c)
}

fn write_listed_codes(parcel: &mut MsgParcel, c: &TaskConfig)
    requires
        old(parcel).wf(),
    ensures
        final(parcel).wf(),
        final(parcel).items() == old(parcel).items() + listed_codes(*c),
{
    parcel.write_u32(c.common_data.action.repr() as u32);
    parcel.write_u32(c.common_data.mode.repr() as u32);
    parcel.write_u32(c.bundle_type);
    parcel.write_bool(c.common_data.cover);
    parcel.write_u32(c.common_data.network_config.repr() as u32);
    proof {
        assert(parcel.items() =~= old(parcel).items() + listed_codes(*c));
    }
}

fn write_listed_flags(parcel: &mut MsgParcel, c: &TaskConfig)
    requires
        old(parcel).wf(),
    ensures
        final(parcel).wf(),
        final(parcel).items() == old(parcel).items() + listed_flags(*c),
{
    parcel.write_bool(c.common_data.metered);
    parcel.write_bool(c.common_data.roaming);
    parcel.write_bool(c.common_data.retry);
    parcel.write_bool(c.common_data.redirect);
    proof {
        assert(parcel.items() =~= old(parcel).items() + listed_flags(*c));
    }
}

fn write_listed_range(parcel: &mut MsgParcel, c: &TaskConfig)
    requires
        old(parcel).wf(),
    ensures
        final(parcel).wf(),
        final(parcel).items() == old(parcel).items() + listed_range(*c),
{
    parcel.write_u32(c.common_data.index);
    parcel.write_u64(c.common_data.begins);
    parcel.write_i64(c.common_data.ends);
    parcel.write_bool(c.common_data.gauge);
    parcel.write_bool(c.common_data.precise);
    parcel.write_u32(c.common_data.priority);
    parcel.write_bool(c.common_data.background);
    parcel.write_bool(c.common_data.multipart);
    proof {
        assert(parcel.items() =~= old(parcel).items() + listed_range(*c));
    }
}

fn write_listed_files(parcel: &mut MsgParcel, v: &Vec<FileSpec>)
    requires
        old(parcel).wf(),
    ensures
        final(parcel).wf(),
        final(parcel).items() == old(parcel).items() + seq![ParcelItem::U32(v@.len() as u32)]
            + listed_files_items(v@),
{
    parcel.write_u32(v.len() as u32);
    let ghost start = parcel.items();
    let mut j: usize = 0;
    while j < v.len()
        invariant
            parcel.wf(),
            j <= v@.len(),
            parcel.items() == start + listed_files_items(v@.take(j as int)),
        decreases v@.len() - j,
    {
        let ghost before = parcel.items();
        parcel.write_string(v[j].name.as_str());
        parcel.write_string(v[j].path.as_str());
        parcel.write_string(v[j].file_name.as_str());
        parcel.write_string(v[j].mime_type.as_str());
        proof {
            assert(v@.take(j + 1).drop_last() =~= v@.take(j as int));
            assert(parcel.items() =~= before + listed_file_items(v@[j as int]));
        }
        j = j + 1;
    }
    proof {
        assert(v@.take(v@.len() as int) =~= v@);
    }
}

fn write_listed_head(reply: &mut MsgParcel, c: &TaskConfig)
    requires
        old(reply).wf(),
    ensures
        final(reply).wf(),
        final(reply).items() == old(reply).items() + listed_settings(*c) + listed_texts(*c),
{
    write_listed_codes(reply, c);
    write_listed_flags(reply, c);
    write_listed_range(reply, c);
    let ghost p = reply.items();
    reply.write_string(c.bundle.as_str());
    reply.write_string(c.url.as_str());
    reply.write_string(c.title.as_str());
    reply.write_string(c.description.as_str());
    reply.write_string(c.method.as_str());
    proof {
        assert(reply.items() =~= p + listed_texts(*c));
        assert(reply.items() =~= old(reply).items() + listed_settings(*c) + listed_texts(*c));
    }
}

fn write_listed_middle(
    reply: &mut MsgParcel,
    c: &TaskConfig,
    headers: &Vec<(String, String)>,
    extras: &Vec<(String, String)>,
)
    requires
        old(reply).wf(),
    ensures
        final(reply).wf(),
        final(reply).items() == old(reply).items() + listed_middle(
            *c,
            pair_texts(headers@),
            pair_texts(extras@),
        ),
{
    write_pairs(reply, headers);
    reply.write_string(c.data.as_str());
    reply.write_string(c.token.as_str());
    write_pairs(reply, extras);
    reply.write_u32(c.version.repr() as u32);
    proof {
        assert(reply.items() =~= old(reply).items() + listed_middle(
            *c,
            pair_texts(headers@),
            pair_texts(extras@),
        ));
    }
}

fn write_listed_lists(reply: &mut MsgParcel, c: &TaskConfig)
    requires
        old(reply).wf(),
    ensures
        final(reply).wf(),
        final(reply).items() == old(reply).items() + listed_lists(*c),
{
    write_forms(reply, &c.form_items);
    write_listed_files(reply, &c.file_specs);
    write_texts(reply, &c.body_file_paths);
    reply.write_i64(c.common_data.min_speed.speed);
    reply.write_i64(c.common_data.min_speed.duration);
    proof {
        assert(reply.items() =~= old(reply).items() + listed_lists(*c));
    }
}

/// Writes a task configuration as it is handed back to its owner, with its
/// headers and extras as the given pairs.
pub fn serialize_task_config(
    c: &TaskConfig,
    headers: &Vec<(String, String)>,
    extras: &Vec<(String, String)>,
    reply: &mut MsgParcel,
)
    requires
        old(reply).wf(),
    ensures
        final(reply).wf(),
        final(reply).items() == old(reply).items() + listed_config_items(
            *c,
            pair_texts(headers@),
            pair_texts(extras@),
        ),
{
    write_listed_head(reply, c);
    write_listed_middle(reply, c, headers, extras);
    write_listed_lists(reply, c);
    proof {
        assert(reply.items() =~= old(reply).items() + listed_config_items(
            *c,
            pair_texts(headers@),
            pair_texts(extras@),
        ));
    }
}

/// Whether a configuration read back from a message has every setting of
/// the configuration that was written: its codes, flags, range, speeds,
/// time-outs, texts, certificate paths, form fields, body files, and files
/// (a file's descriptor comes back only for a file handed in open).
pub open spec fn read_back_of(r: TaskConfig, c: TaskConfig) -> bool {
    let rd = r.common_data;
    let cd = c.common_data;
    &&& rd.action == cd.action
    &&& r.version == c.version
    &&& rd.mode == cd.mode
    &&& r.bundle_type == c.bundle_type
    &&& rd.cover == cd.cover
    &&& rd.network_config == cd.network_config
    &&& rd.metered == cd.metered
    &&& rd.roaming == cd.roaming
    &&& rd.retry == cd.retry
    &&& rd.redirect == cd.redirect
    &&& rd.background == cd.background
    &&& rd.multipart == cd.multipart
    &&& rd.index == cd.index
    &&& rd.begins == cd.begins
    &&& rd.ends == cd.ends
    &&& rd.gauge == cd.gauge
    &&& rd.precise == cd.precise
    &&& rd.priority == cd.priority
    &&& rd.min_speed.speed == cd.min_speed.speed
    &&& rd.min_speed.duration == cd.min_speed.duration
    &&& rd.timeout.connection_timeout == cd.timeout.connection_timeout
    &&& rd.timeout.total_timeout == cd.timeout.total_timeout
    &&& r.url@ == c.url@
    &&& r.title@ == c.title@
    &&& r.method@ == c.method@
    &&& r.token@ == c.token@
    &&& r.description@ == c.description@
    &&& r.data@ == c.data@
    &&& r.proxy@ == c.proxy@
    &&& r.certificate_pins@ == c.certificate_pins@
    &&& texts(r.certs_path@) == texts(c.certs_path@)
    &&& form_texts(r.form_items@) == form_texts(c.form_items@)
    &&& texts(r.body_file_paths@) == texts(c.body_file_paths@)
    &&& r.file_specs@.len() == c.file_specs@.len()
    &&& forall|j: int|
        0 <= j < c.file_specs@.len() ==> file_matches(
            #[trigger] r.file_specs@[j],
            file_record(c.file_specs@[j]),
        )
}

/// A task configuration written to a message and read back for a caller
/// is the configuration written, in every setting (`read_back_of`), with
/// the caller's bundle, user and token, no task id yet, and the caller's
/// account only for an atomic service. This holds when every file handed
/// in open has a descriptor that is not negative, and the message is
/// shorter than 2^32 values.
pub proof fn lemma_config_read_back(
    c: TaskConfig,
    r: TaskConfig,
    headers: Seq<(Seq<char>, Seq<char>)>,
    extras: Seq<(Seq<char>, Seq<char>)>,
    tail: Seq<ParcelItem>,
    bundle: Seq<char>,
    uid: u64,
    token_id: u64,
    account: Seq<char>,
)
    requires
        user_fds_valid(c.file_specs@),
        config_items(c, headers, extras).len() + tail.len() < 0x1_0000_0000,
        decode_config(config_items(c, headers, extras) + tail) matches Some(d) && config_matches(
            r,
            d,
            bundle,
            uid,
            token_id,
            account,
        ),
    ensures
        read_back_of(r, c),
        r.bundle@ == bundle,
        r.common_data.uid == uid,
        r.common_data.token_id == token_id,
        r.common_data.task_id == 0,
        r.atomic_account@ == if c.bundle_type == ATOMIC_SERVICE {
            account
        } else {
            Seq::<char>::empty()
        },
{
    lemma_config_round_trip(c, headers, extras, tail);
    let d = decode_config(config_items(c, headers, extras) + tail).unwrap();
    lemma_head_read_back(c, r, d, bundle, uid, token_id, account);
    lemma_lists_read_back(c, r, d, bundle, uid, token_id, account);
}

/// The headers and extras of a task configuration written to a message and
/// read back: where strings obey vstd's model of hashed keys, the maps
/// written are those of the pairs `hs` and `es` they were written from,
/// and the maps read back are those of pairs with exactly the same texts,
/// in the same order. This holds when every file handed in open has a
/// descriptor that is not negative, and the message is shorter than 2^32
/// values.
pub proof fn lemma_config_maps_read_back(
    c: TaskConfig,
    r: TaskConfig,
    hs: Seq<(String, String)>,
    es: Seq<(String, String)>,
    tail: Seq<ParcelItem>,
)
    requires
        user_fds_valid(c.file_specs@),
        pairs_describe(hs, c.headers@),
        pairs_describe(es, c.extras@),
        config_items(c, pair_texts(hs), pair_texts(es)).len() + tail.len() < 0x1_0000_0000,
        decode_config(config_items(c, pair_texts(hs), pair_texts(es)) + tail) matches Some(d)
            && maps_match(r, d),
    ensures
        obeys_key_model::<String>() ==> c.headers@ == pairs_map(hs) && exists|h: Seq<
            (String, String),
        >| pair_texts(h) == pair_texts(hs) && #[trigger] pairs_map(h) == r.headers@,
        obeys_key_model::<String>() ==> c.extras@ == pairs_map(es) && exists|e: Seq<
            (String, String),
        >| pair_texts(e) == pair_texts(es) && #[trigger] pairs_map(e) == r.extras@,
{
    reveal(pairs_describe);
    lemma_config_round_trip(c, pair_texts(hs), pair_texts(es), tail);
}

#[verifier::spinoff_prover]
#[verifier::rlimit(80)]
proof fn lemma_head_read_back(
    c: TaskConfig,
    r: TaskConfig,
    d: ConfigRecord,
    bundle: Seq<char>,
    uid: u64,
    token_id: u64,
    account: Seq<char>,
)
    requires
        d.head == config_head(c),
        config_matches(r, d, bundle, uid, token_id, account),
    ensures
        r.common_data.action == c.common_data.action,
        r.version == c.version,
        r.common_data.mode == c.common_data.mode,
        r.common_data.network_config == c.common_data.network_config,
        r.common_data.begins == c.common_data.begins,
        r.bundle_type == c.bundle_type,
        r.common_data.cover == c.common_data.cover,
        r.common_data.metered == c.common_data.metered,
        r.common_data.roaming == c.common_data.roaming,
        r.common_data.retry == c.common_data.retry,
        r.common_data.redirect == c.common_data.redirect,
        r.common_data.background == c.common_data.background,
        r.common_data.multipart == c.common_data.multipart,
        r.common_data.index == c.common_data.index,
        r.common_data.ends == c.common_data.ends,
        r.common_data.gauge == c.common_data.gauge,
        r.common_data.precise == c.common_data.precise,
        r.common_data.priority == c.common_data.priority,
        r.common_data.min_speed.speed == c.common_data.min_speed.speed,
        r.common_data.min_speed.duration == c.common_data.min_speed.duration,
        r.common_data.timeout.connection_timeout == c.common_data.timeout.connection_timeout,
        r.common_data.timeout.total_timeout == c.common_data.timeout.total_timeout,
        r.url@ == c.url@,
        r.title@ == c.title@,
        r.method@ == c.method@,
        r.token@ == c.token@,
        r.description@ == c.description@,
        r.data@ == c.data@,
        r.proxy@ == c.proxy@,
        r.certificate_pins@ == c.certificate_pins@,
{
    let h = config_head(c);
    assert(h =~= head_codes(c) + head_flags(c) + head_range(c) + head_limits(c) + head_texts(c));
    assert(h.len() == 30);
    assert(h[0] == ParcelItem::U32(action_code(c.common_data.action) as u32));
    assert(h[1] == ParcelItem::U32(version_code(c.version) as u32));
    assert(h[2] == ParcelItem::U32(mode_code(c.common_data.mode) as u32));
    assert(h[5] == ParcelItem::U32(network_code(c.common_data.network_config) as u32));
    assert(h[13] == ParcelItem::I64(c.common_data.begins as i64));
    let b = c.common_data.begins;
    assert(((b as i64) as u64) == b) by (bit_vector);
}

#[verifier::spinoff_prover]
proof fn lemma_lists_read_back(
    c: TaskConfig,
    r: TaskConfig,
    d: ConfigRecord,
    bundle: Seq<char>,
    uid: u64,
    token_id: u64,
    account: Seq<char>,
)
    requires
        d.certs == texts(c.certs_path@),
        d.forms == form_texts(c.form_items@),
        d.files == file_records(c.file_specs@),
        d.bodies == texts(c.body_file_paths@),
        config_matches(r, d, bundle, uid, token_id, account),
    ensures
        texts(r.certs_path@) == texts(c.certs_path@),
        form_texts(r.form_items@) == form_texts(c.form_items@),
        texts(r.body_file_paths@) == texts(c.body_file_paths@),
        r.file_specs@.len() == c.file_specs@.len(),
        forall|j: int|
            0 <= j < c.file_specs@.len() ==> file_matches(
                #[trigger] r.file_specs@[j],
                file_record(c.file_specs@[j]),
            ),
{
    assert forall|j: int| 0 <= j < c.file_specs@.len() implies file_matches(
        #[trigger] r.file_specs@[j],
        file_record(c.file_specs@[j]),
    ) by {
        assert(d.files[j] == file_record(c.file_specs@[j]));
    }
}

} // verus!
