//! The dump command of the service: what its arguments ask for, and the
//! text of its answers, a table of tasks with one row per task.

use vstd::prelude::*;

use crate::command::{parse_task_id, task_id_of};
use crate::text::{dec_digits, push_char, push_str, str_eq, to_owned_string, u64_to_text};

verus! {

/// What a dump asks for.
#[derive(Clone, Copy, Debug, PartialEq, Eq, Structural)]
pub enum DumpRequest {
    /// The usage text.
    Help,
    /// Nothing valid: the first argument is not a known flag.
    InvalidArgs,
    /// A summary of all tasks.
    All,
    /// The details of one task.
    One(u32),
    /// A task id that is not a number.
    NotANumber,
    /// More arguments than `-t` takes.
    TooManyArgs,
}

/// What the arguments of a dump ask for: the usage text without arguments
/// or with `-h`; after `-t`, all tasks, or the task whose id follows.
pub open spec fn dump_request_of(args: Seq<Seq<char>>) -> DumpRequest {
    if args.len() == 0 || args[0] == "-h"@ {
        DumpRequest::Help
    } else if args[0] != "-t"@ {
        DumpRequest::InvalidArgs
    } else if args.len() == 1 {
        DumpRequest::All
    } else if args.len() == 2 {
        match task_id_of(args[1]) {
            Some(id) => DumpRequest::One(id),
            None => DumpRequest::NotANumber,
        }
    } else {
        DumpRequest::TooManyArgs
    }
}

/// Reads the arguments of a dump.
pub fn dump_request(args: &Vec<String>) -> (r: DumpRequest)
    ensures
        r == dump_request_of(args@.map_values(|a: String| a@)),
{
    let ghost view = args@.map_values(|a: String| a@);
    let len = args.len();
    if len == 0 {
        return DumpRequest::Help;
    }
    proof {
        assert(view[0] == args@[0]@);
    }
    if str_eq(args[0].as_str(), "-h") {
        return DumpRequest::Help;
    }
    if !str_eq(args[0].as_str(), "-t") {
        return DumpRequest::InvalidArgs;
    }
    if len == 1 {
        DumpRequest::All
    } else if len == 2 {
        proof {
            assert(view[1] == args@[1]@);
        }
        match parse_task_id(args[1].as_str()) {
            Some(id) => DumpRequest::One(id),
            None => DumpRequest::NotANumber,
        }
    } else {
        DumpRequest::TooManyArgs
    }
}

/// The usage text of the dump command.
pub open spec fn help_text() -> Seq<char> {
    "usage:\n-h                    help text for the tool\n-t [taskid]           without taskid: display all task summary info; taskid: display one task detail info\n"@
}

/// Gives the usage text of the dump command.
pub fn help_message() -> (r: &'static str)
    ensures
        r@ == help_text(),
{
    "usage:\n-h                    help text for the tool\n-t [taskid]           without taskid: display all task summary info; taskid: display one task detail info\n"
}

/// What a dump answers at once, without asking the task manager: the usage
/// text, or the complaint about the arguments; nothing for a valid request
/// of tasks.
pub fn immediate_answer(request: DumpRequest) -> (r: Option<&'static str>)
    ensures
        (request is All || request is One) <==> r is None,
        request == DumpRequest::Help ==> (r matches Some(t) && t@ == help_text()),
        request == DumpRequest::InvalidArgs ==> (r matches Some(t) && t@ == "invalid args"@),
        request == DumpRequest::NotANumber ==> (r matches Some(t) && t@ == "-t accept a number"@),
        request == DumpRequest::TooManyArgs ==> (r matches Some(t) && t@
            == "too many args, -t accept no arg or one arg"@),
{
    match request {
        DumpRequest::Help => Some(help_message()),
        DumpRequest::InvalidArgs => Some("invalid args"),
        DumpRequest::NotANumber => Some("-t accept a number"),
        DumpRequest::TooManyArgs => Some("too many args, -t accept no arg or one arg"),
        DumpRequest::All => None,
        DumpRequest::One(_) => None,
    }
}

/// `n` spaces.
pub open spec fn spaces(n: nat) -> Seq<char> {
    Seq::new(n, |i: int| ' ')
}

/// A text left-aligned in a column of `width` characters: padded with
/// spaces, never cut.
pub open spec fn pad_right(s: Seq<char>, width: nat) -> Seq<char> {
    if s.len() >= width {
        s
    } else {
        s + spaces((width - s.len()) as nat)
    }
}

/// Appends `s` left-aligned in a column of `width` characters.
fn push_padded(out: &mut String, s: &str, width: usize)
    ensures
        final(out)@ == old(out)@ + pad_right(s@, width as nat),
{
    push_str(out, s);
    let n = s.unicode_len();
    if n < width {
        let mut k: usize = n;
        while k < width
            invariant
                n <= k <= width,
                n == s@.len(),
                out@ == old(out)@ + s@ + spaces((k - n) as nat),
            decreases width - k,
        {
            push_char(out, ' ');
            k = k + 1;
            proof {
                assert(spaces((k - 1 - n) as nat).push(' ') =~= spaces((k - n) as nat));
            }
        }
        proof {
            assert(old(out)@ + s@ + spaces((width - n) as nat) =~= old(out)@ + (s@ + spaces(
                (width - n) as nat,
            )));
        }
    } else {
        proof {
            assert(s@ + Seq::<char>::empty() =~= s@);
        }
    }
}

/// A row of the task table: the id in a column of 20 characters, then
/// the action, state and reason codes in columns of 12, then a line break.
pub open spec fn table_row(id: Seq<char>, action: Seq<char>, state: Seq<char>, reason: Seq<char>) -> Seq<
    char,
> {
    pad_right(id, 20) + pad_right(action, 12) + pad_right(state, 12) + pad_right(reason, 12) + seq![
        '\n',
    ]
}

/// Writes a row of the task table.
fn write_row(id: &str, action: &str, state: &str, reason: &str) -> (r: String)
    ensures
        r@ == table_row(id@, action@, state@, reason@),
{
    let mut r = String::new();
    push_padded(&mut r, id, 20);
    push_padded(&mut r, action, 12);
    push_padded(&mut r, state, 12);
    push_padded(&mut r, reason, 12);
    push_char(&mut r, '\n');
    proof {
        assert(r@ =~= table_row(id@, action@, state@, reason@));
    }
    r
}

/// The header of the task table.
pub fn dump_header() -> (r: String)
    ensures
        r@ == table_row("id"@, "action"@, "state"@, "reason"@),
{
    write_row("id", "action", "state", "reason")
}

/// The row of one task: its id and its action, state and reason codes.
pub fn dump_row(task_id: u32, action: u8, state: u8, reason: u8) -> (r: String)
    ensures
        r@ == table_row(
            dec_digits(task_id as nat),
            dec_digits(action as nat),
            dec_digits(state as nat),
            dec_digits(reason as nat),
        ),
{
    let id = u64_to_text(task_id as u64);
    let a = u64_to_text(action as u64);
    let s = u64_to_text(state as u64);
    let c = u64_to_text(reason as u64);
    write_row(id.as_str(), a.as_str(), s.as_str(), c.as_str())
}

/// The line that opens a summary: how many tasks there are.
pub fn task_count_line(count: usize) -> (r: String)
    ensures
        r@ == "task num: "@ + dec_digits(count as nat) + seq!['\n'],
{
    let mut r = to_owned_string("task num: ");
    let n = u64_to_text(count as u64);
    push_str(&mut r, n.as_str());
    push_char(&mut r, '\n');
    r
}

/// The answer for a task id that names no task.
pub fn invalid_task_line(task_id: u32) -> (r: String)
    ensures
        r@ == "invalid task id "@ + dec_digits(task_id as nat),
{
    let mut r = to_owned_string("invalid task id ");
    let n = u64_to_text(task_id as u64);
    push_str(&mut r, n.as_str());
    r
}

} // verus!
