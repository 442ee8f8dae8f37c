//! The contents of the notifications shown for tasks and groups: titles,
//! texts, progress circles.

use vstd::prelude::*;

use super::notify_flow::{GroupProgress, ProgressNotify};
use super::progress_size::{progress_size, size_text};
use crate::config::Action;
use crate::text::{
    all_digits, digits_value, lemma_dec_digits_value, contains_seq, contains_str, dec_digits, push_char, push_str, replace_all, replace_all_str,
    replace_first, replace_first_str, to_owned_string, two_digits, u64_to_text, int_text,
    i64_to_text,
};

verus! {

/// Title, text and click action that the application chose for a task's
/// or group's notifications.
#[derive(Debug)]
pub struct CustomizedNotification {
    /// Custom title, if any.
    pub title: Option<String>,
    /// Custom text, if any.
    pub text: Option<String>,
    /// Custom click action (a serialized want agent), if any.
    pub want_agent: Option<String>,
}

impl Clone for CustomizedNotification {
    fn clone(&self) -> (r: Self)
        ensures
            r == *self,
    {
        CustomizedNotification {
            title: clone_opt(&self.title),
            text: clone_opt(&self.text),
            want_agent: clone_opt(&self.want_agent),
        }
    }
}

fn clone_opt(s: &Option<String>) -> (r: Option<String>)
    ensures
        r == *s,
{
    match s {
        Some(v) => Some(v.clone()),
        None => None,
    }
}

/// The texts of the system that notifications are made from, in the
/// system's language: templates with `%s` for a number or size, and the
/// task count template with `%d`/`%d` or `%1$d`/`%2$d`.
pub struct SystemTexts {
    /// The system language code, for writing sizes.
    pub language: String,
    /// Title of a running download (`%s`: progress).
    pub download_file: String,
    /// Title of a finished download.
    pub download_success: String,
    /// Title of a failed download.
    pub download_fail: String,
    /// Title of a running upload (`%s`: progress).
    pub upload_file: String,
    /// Title of a finished upload.
    pub upload_success: String,
    /// Title of a failed upload.
    pub upload_fail: String,
    /// Count of finished and failed tasks of a group.
    pub task_count: String,
    /// Title of a finished group download (`%s`: size).
    pub download_complete: String,
}

/// A progress circle in a notification.
#[derive(Clone, Copy, Debug, PartialEq, Eq, Structural)]
pub struct ProgressCircle {
    /// Whether the circle is shown.
    pub open: bool,
    /// Current progress value.
    pub current: u64,
    /// Total progress value.
    pub total: u64,
}

/// The content of a notification.
#[derive(Debug)]
pub struct NotifyContent {
    /// The title line.
    pub title: String,
    /// The text line.
    pub text: String,
    /// The click action.
    pub want_agent: String,
    /// The task or group the notification belongs to.
    pub request_id: u32,
    /// The owner of the task or group.
    pub uid: u32,
    /// Whether the notification updates live.
    pub live_view: bool,
    /// The progress circle.
    pub progress_circle: ProgressCircle,
    /// Whether the notification has a close button.
    pub x_mark: bool,
}

/// Current and total values halved together until both fit in an `i32`.
pub open spec fn circle_scale(current: nat, total: nat) -> (nat, nat)
    decreases current + total,
{
    if total <= i32::MAX && current <= i32::MAX {
        (current, total)
    } else {
        circle_scale(current / 2, total / 2)
    }
}

impl ProgressCircle {
    /// A hidden progress circle.
    pub fn close() -> (r: Self)
        ensures
            r == (ProgressCircle { open: false, current: 0, total: 0 }),
    {
        ProgressCircle { open: false, current: 0, total: 0 }
    }

    /// A shown progress circle; values too large for an `i32` are halved
    /// together until both fit.
    pub fn open(current: u64, total: u64) -> (r: Self)
        ensures
            r.open,
            (r.current as nat, r.total as nat) == circle_scale(current as nat, total as nat),
            r.total <= i32::MAX,
            r.current <= i32::MAX,
    {
        let mut c = current;
        let mut t = total;
        while t > 0x7fff_ffffu64 || c > 0x7fff_ffffu64
            invariant
                circle_scale(c as nat, t as nat) == circle_scale(current as nat, total as nat),
            decreases c + t,
        {
            t = t / 2;
            c = c / 2;
        }
        ProgressCircle { open: true, current: c, total: t }
    }
}

/// Progress as a percentage with two decimals, rounded down ("45.67%");
/// "100%" when the total is zero.
pub open spec fn percentage_text(current: nat, total: nat) -> Seq<char> {
    if total == 0 {
        "100%"@
    } else {
        dec_digits(current * 100 / total) + "."@ + two_digits((current * 100 % total) * 100 / total)
            + "%"@
    }
}

/// Writes progress as a percentage with two decimals, rounded down.
pub fn progress_percentage(current: u64, total: u64) -> (r: String)
    requires
        current * 100 <= u64::MAX,
        total > 0 ==> (current * 100 % (total as int)) * 100 <= u64::MAX,
    ensures
        r@ == percentage_text(current as nat, total as nat),
{
    if total == 0 {
        return to_owned_string("100%");
    }
    let whole = current * 100 / total;
    let rest = current * 100 % total * 100 / total;
    proof {
        assert(rest < 100) by (nonlinear_arith)
            requires
                total > 0,
                rest == (current * 100 % (total as int)) * 100 / (total as int),
                current * 100 % (total as int) < total,
        ;
    }
    let mut r = u64_to_text(whole);
    push_char(&mut r, '.');
    push_char(&mut r, crate::text::digit_to_char(rest / 10));
    push_char(&mut r, crate::text::digit_to_char(rest % 10));
    push_char(&mut r, '%');
    proof {
        assert(r@ =~= dec_digits(whole as nat) + "."@ + two_digits(rest as nat) + "%"@) by {
            reveal_strlit(".");
            reveal_strlit("%");
        }
    }
    r
}

/// The custom title, if the application chose one.
pub open spec fn custom_title(c: Option<CustomizedNotification>) -> Option<String> {
    match c {
        Some(c) => c.title,
        None => None,
    }
}

/// The custom text, if the application chose one.
pub open spec fn custom_text(c: Option<CustomizedNotification>) -> Option<String> {
    match c {
        Some(c) => c.text,
        None => None,
    }
}

/// The custom click action, empty if the application chose none.
pub open spec fn custom_want_agent(c: Option<CustomizedNotification>) -> Seq<char> {
    match c {
        Some(c) => match c.want_agent {
            Some(w) => w@,
            None => Seq::empty(),
        },
        None => Seq::empty(),
    }
}

/// A custom string, or the given default.
pub open spec fn or_default(o: Option<String>, d: Seq<char>) -> Seq<char> {
    match o {
        Some(s) => s@,
        None => d,
    }
}

/// The title of a finished or failed task, by action.
pub open spec fn eventual_title(texts: SystemTexts, action: Action, is_successful: bool) -> Seq<
    char,
> {
    if action == Action::Download {
        if is_successful {
            texts.download_success@
        } else {
            texts.download_fail@
        }
    } else if is_successful {
        texts.upload_success@
    } else {
        texts.upload_fail@
    }
}

/// The progress shown in a task's title: "current/total" files for a
/// multi-file upload, otherwise a percentage when the total size is known,
/// otherwise the size processed.
pub open spec fn progress_figure(info: ProgressNotify, lang: Seq<char>) -> Seq<char> {
    if info.action == Action::Upload && info.multi_upload is Some {
        let (c, t) = info.multi_upload->0;
        dec_digits(c as nat) + "/"@ + dec_digits(t as nat)
    } else {
        match info.total {
            Some(total) => percentage_text(info.processed as nat, total as nat),
            None => size_text(info.processed as nat, lang),
        }
    }
}

/// Whether `f` writes the file counts of a multi-file upload: the current
/// file's count in decimal digits, a slash, and the number of files.
pub open spec fn writes_file_counts(f: Seq<char>, current: nat, total: nat) -> bool {
    exists|k: int|
        0 <= k < f.len() && f[k] == '/' && all_digits(#[trigger] f.take(k)) && digits_value(
            f.take(k),
        ) == current && all_digits(f.skip(k + 1)) && digits_value(f.skip(k + 1)) == total
}

/// The progress of a multi-file upload is written as the count of the
/// current file, a slash, then the number of files: "1/3" while the first
/// of three files goes up.
pub proof fn lemma_upload_figure(info: ProgressNotify, lang: Seq<char>)
    requires
        info.action == Action::Upload,
        info.multi_upload is Some,
    ensures
        info.multi_upload matches Some((c, t)) ==> writes_file_counts(
            progress_figure(info, lang),
            c as nat,
            t as nat,
        ),
{
    reveal_strlit("/");
    let (c, t) = info.multi_upload->0;
    let dc = dec_digits(c as nat);
    let dt = dec_digits(t as nat);
    lemma_dec_digits_value(c as nat);
    lemma_dec_digits_value(t as nat);
    let f = progress_figure(info, lang);
    let k = dc.len() as int;
    assert(f =~= dc + "/"@ + dt);
    assert(f.take(k) =~= dc);
    assert(f.skip(k + 1) =~= dt);
    assert(f[k] == '/');
}

/// The title of a running multi-file upload without a custom title is the
/// system's upload title with its placeholder filled by the file counts:
/// the current file's count, a slash, then the number of files.
pub proof fn lemma_upload_progress_title(r: NotifyContent, info: ProgressNotify, texts: SystemTexts)
    requires
        NotifyContent::task_progress_spec(r, None, info, texts),
        info.action == Action::Upload,
        info.multi_upload is Some,
    ensures
        info.multi_upload matches Some((c, t)) ==> exists|f: Seq<char>|
            r.title@ == replace_all(texts.upload_file@, "%s"@, f) && #[trigger] writes_file_counts(
                f,
                c as nat,
                t as nat,
            ),
{
    lemma_upload_figure(info, texts.language@);
    let f = progress_figure(info, texts.language@);
    assert(r.title@ == replace_all(texts.upload_file@, "%s"@, f));
}

/// The count text of a group: the system template filled with the counts
/// of successful and failed tasks.
pub open spec fn count_text(template: Seq<char>, successful: Seq<char>, failed: Seq<char>) -> Seq<
    char,
> {
    if contains_seq(template, "%d"@) {
        replace_first(replace_first(template, "%d"@, successful), "%d"@, failed)
    } else {
        replace_all(replace_all(template, "%1$d"@, successful), "%2$d"@, failed)
    }
}

/// The words that start the title of a finished group upload.
pub open spec fn upload_complete_prefix() -> Seq<char> {
    "\u{4e0a}\u{4f20}\u{5b8c}\u{6210} "@
}

fn custom_or(o: Option<String>, d: String) -> (r: String)
    ensures
        r@ == or_default(o, d@),
{
    match o {
        Some(s) => s,
        None => d,
    }
}

fn want_agent_of(c: &Option<CustomizedNotification>) -> (r: String)
    ensures
        r@ == custom_want_agent(*c),
{
    match c {
        Some(c) => match &c.want_agent {
            Some(w) => w.clone(),
            None => String::new(),
        },
        None => String::new(),
    }
}

fn title_of(c: &Option<CustomizedNotification>) -> (r: Option<String>)
    ensures
        r == custom_title(*c),
{
    match c {
        Some(c) => clone_opt(&c.title),
        None => None,
    }
}

fn text_of(c: &Option<CustomizedNotification>) -> (r: Option<String>)
    ensures
        r == custom_text(*c),
{
    match c {
        Some(c) => clone_opt(&c.text),
        None => None,
    }
}

/// Fills the count template of a group.
fn fill_count(template: &String, successful: &String, failed: &String) -> (r: String)
    ensures
        r@ == count_text(template@, successful@, failed@),
{
    proof {
        reveal_strlit("%d");
        reveal_strlit("%1$d");
        reveal_strlit("%2$d");
    }
    if contains_str(template.as_str(), "%d") {
        let once = replace_first_str(template.as_str(), "%d", successful.as_str());
        replace_first_str(once.as_str(), "%d", failed.as_str())
    } else {
        let once = replace_all_str(template.as_str(), "%1$d", successful.as_str());
        replace_all_str(once.as_str(), "%2$d", failed.as_str())
    }
}

impl NotifyContent {
    /// The content of a group's progress notification (see `group_progress_notify`).
    pub open spec fn group_progress_spec(
        r: NotifyContent,
        customized: Option<CustomizedNotification>,
        action: Action,
        group_id: u32,
        uid: u32,
        group_progress: GroupProgress,
        texts: SystemTexts,
    ) -> bool {
        &&& r.title@ == or_default(
                custom_title(customized),
                replace_all(
                    if action == Action::Download {
                        texts.download_file@
                    } else {
                        texts.upload_file@
                    },
                    "%s"@,
                    size_text(group_progress.total_view(), texts.language@),
                ),
            )
        &&& r.text@ == or_default(
                custom_text(customized),
                count_text(
                    texts.task_count@,
                    dec_digits(group_progress.successful_view()),
                    dec_digits(group_progress.failed_view()),
                ),
            )
        &&& r.want_agent@ == custom_want_agent(customized)
        &&& r.request_id == group_id
        &&& r.uid == uid
        &&& r.live_view
        &&& r.progress_circle == (ProgressCircle {
                open: true,
                current: circle_scale(
                    (group_progress.successful_view() + group_progress.failed_view()) as nat,
                    group_progress.state_view().dom().len(),
                ).0 as u64,
                total: circle_scale(
                    (group_progress.successful_view() + group_progress.failed_view()) as nat,
                    group_progress.state_view().dom().len(),
                ).1 as u64,
            })
        &&& !r.x_mark
    }

    /// The content of a task's progress notification (see `task_progress_notify`).
    pub open spec fn task_progress_spec(
        r: NotifyContent,
        customized: Option<CustomizedNotification>,
        info: ProgressNotify,
        texts: SystemTexts,
    ) -> bool {
        &&& r.title@ == or_default(
                custom_title(customized),
                replace_all(
                    if info.action == Action::Download {
                        texts.download_file@
                    } else {
                        texts.upload_file@
                    },
                    "%s"@,
                    progress_figure(info, texts.language@),
                ),
            )
        &&& r.text@ == or_default(custom_text(customized), info.file_name@)
        &&& r.want_agent@ == custom_want_agent(customized)
        &&& r.request_id == info.task_id
        &&& r.uid == info.uid as u32
        &&& r.live_view
        &&& r.progress_circle == match info.total {
                Some(total) => ProgressCircle {
                    open: true,
                    current: circle_scale(info.processed as nat, total as nat).0 as u64,
                    total: circle_scale(info.processed as nat, total as nat).1 as u64,
                },
                None => ProgressCircle { open: false, current: 0, total: 0 },
            }
        &&& r.x_mark
    }

    /// The content of a task's completion notification (see `task_eventual_notify`).
    pub open spec fn task_eventual_spec(
        r: NotifyContent,
        customized: Option<CustomizedNotification>,
        action: Action,
        task_id: u32,
        uid: u32,
        file_name: String,
        is_successful: bool,
        texts: SystemTexts,
    ) -> bool {
        &&& r.title@ == or_default(custom_title(customized), eventual_title(texts, action, is_successful))
        &&& r.text@ == or_default(custom_text(customized), file_name@)
        &&& r.want_agent@ == custom_want_agent(customized)
        &&& r.request_id == task_id
        &&& r.uid == uid
        &&& !r.live_view
        &&& r.progress_circle == (ProgressCircle { open: false, current: 0, total: 0 })
        &&& !r.x_mark
    }

    /// The content of a group's completion notification (see
    /// `group_eventual_notify`).
    pub open spec fn group_eventual_spec(
        r: NotifyContent,
        customized: Option<CustomizedNotification>,
        action: Action,
        group_id: u32,
        uid: u32,
        current_size: u64,
        successful_count: i32,
        failed_count: i32,
        texts: SystemTexts,
    ) -> bool {
        &&& r.title@ == or_default(
                custom_title(customized),
                if action == Action::Download {
                    replace_all(
                        texts.download_complete@,
                        "%s"@,
                        size_text(current_size as nat, texts.language@),
                    )
                } else {
                    upload_complete_prefix() + size_text(current_size as nat, texts.language@)
                },
            )
        &&& r.text@ == or_default(
                custom_text(customized),
                count_text(
                    texts.task_count@,
                    int_text(successful_count as int),
                    int_text(failed_count as int),
                ),
            )
        &&& r.want_agent@ == custom_want_agent(customized)
        &&& r.request_id == group_id
        &&& r.uid == uid
        &&& !r.live_view
        &&& r.progress_circle == (ProgressCircle { open: false, current: 0, total: 0 })
        &&& !r.x_mark
    }

    /// The notification for a finished or failed task: the custom title or
    /// the system's title for the action and outcome, the custom text or the
    /// file name, no progress circle, not live, no close button.
    pub fn task_eventual_notify(
        customized: Option<CustomizedNotification>,
        action: Action,
        task_id: u32,
        uid: u32,
        file_name: String,
        is_successful: bool,
        texts: &SystemTexts,
    ) -> (r: Self)
        requires
            action != Action::Any,
        ensures
            Self::task_eventual_spec(
                r,
                customized,
                action,
                task_id,
                uid,
                file_name,
                is_successful,
                *texts,
            ),
    {
        let default_title = match action {
            Action::Download => {
                if is_successful {
                    texts.download_success.clone()
                } else {
                    texts.download_fail.clone()
                }
            },
            _ => {
                if is_successful {
                    texts.upload_success.clone()
                } else {
                    texts.upload_fail.clone()
                }
            },
        };
        let title = custom_or(title_of(&customized), default_title);
        let text = custom_or(text_of(&customized), file_name);
        let want_agent = want_agent_of(&customized);
        NotifyContent {
            title,
            text,
            want_agent,
            request_id: task_id,
            uid,
            live_view: false,
            progress_circle: ProgressCircle::close(),
            x_mark: false,
        }
    }

    /// The notification for a running task: the custom title or the
    /// system's running title with the progress filled in, the custom text
    /// or the file name, a progress circle when the total is known, live,
    /// with a close button.
    pub fn task_progress_notify(
        customized: Option<CustomizedNotification>,
        info: &ProgressNotify,
        texts: &SystemTexts,
    ) -> (r: Self)
        requires
            info.action != Action::Any,
            info.processed * 100 <= u64::MAX,
            info.total matches Some(t) ==> (t > 0 ==> (info.processed * 100 % (t as int)) * 100 <= u64::MAX),
        ensures
            Self::task_progress_spec(
                r,
                customized,
                *info,
                *texts,
            ),
    {
        proof {
            reveal_strlit("%s");
            reveal_strlit("/");
        }
        let figure = if info.action == Action::Upload && info.multi_upload.is_some() {
            let (c, t) = info.multi_upload.unwrap();
            let mut f = u64_to_text(c as u64);
            push_char(&mut f, '/');
            let tt = u64_to_text(t as u64);
            push_str(&mut f, tt.as_str());
            assert(f@ =~= dec_digits(c as nat) + "/"@ + dec_digits(t as nat));
            f
        } else {
            match info.total {
                Some(total) => progress_percentage(info.processed, total),
                None => progress_size(info.processed, texts.language.as_str()),
            }
        };
        let template = if info.action == Action::Download {
            &texts.download_file
        } else {
            &texts.upload_file
        };
        let default_title = replace_all_str(template.as_str(), "%s", figure.as_str());
        let title = custom_or(title_of(&customized), default_title);
        let text = custom_or(text_of(&customized), info.file_name.clone());
        let want_agent = want_agent_of(&customized);
        let progress_circle = match info.total {
            Some(total) => ProgressCircle::open(info.processed, total),
            None => ProgressCircle::close(),
        };
        NotifyContent {
            title,
            text,
            want_agent,
            request_id: info.task_id,
            uid: info.uid as u32,
            live_view: true,
            progress_circle,
            x_mark: true,
        }
    }

    /// The notification for a finished group: the custom title, or the
    /// system's completion title with the group's size for downloads, or
    /// "upload complete" with the size for uploads; the custom text or the
    /// counts of successful and failed tasks; no progress circle, not live,
    /// no close button.
    pub fn group_eventual_notify(
        customized: Option<CustomizedNotification>,
        action: Action,
        group_id: u32,
        uid: u32,
        current_size: u64,
        successful_count: i32,
        failed_count: i32,
        texts: &SystemTexts,
    ) -> (r: Self)
        requires
            action != Action::Any,
        ensures
            Self::group_eventual_spec(
                r,
                customized,
                action,
                group_id,
                uid,
                current_size,
                successful_count,
                failed_count,
                *texts,
            ),
    {
        proof {
            reveal_strlit("%s");
        }
        let size = progress_size(current_size, texts.language.as_str());
        let default_title = if action == Action::Download {
            replace_all_str(texts.download_complete.as_str(), "%s", size.as_str())
        } else {
            let mut t = to_owned_string("\u{4e0a}\u{4f20}\u{5b8c}\u{6210} ");
            push_str(&mut t, size.as_str());
            t
        };
        let succ = i64_to_text(successful_count as i64);
        let fail = i64_to_text(failed_count as i64);
        let default_text = fill_count(&texts.task_count, &succ, &fail);
        let title = custom_or(title_of(&customized), default_title);
        let text = custom_or(text_of(&customized), default_text);
        let want_agent = want_agent_of(&customized);
        NotifyContent {
            title,
            text,
            want_agent,
            request_id: group_id,
            uid,
            live_view: false,
            progress_circle: ProgressCircle::close(),
            x_mark: false,
        }
    }

    /// The notification for a running group: the custom title or the
    /// system's running title with the group's processed size, the custom
    /// text or the counts of successful and failed tasks, a progress circle
    /// of finished tasks out of all tasks, live, no close button.
    pub fn group_progress_notify(
        customized: Option<CustomizedNotification>,
        action: Action,
        group_id: u32,
        uid: u32,
        group_progress: &GroupProgress,
        texts: &SystemTexts,
    ) -> (r: Self)
        requires
            action != Action::Any,
            group_progress.wf(),
            group_progress.successful_view() + group_progress.failed_view() <= usize::MAX,
        ensures
            Self::group_progress_spec(
                r,
                customized,
                action,
                group_id,
                uid,
                *group_progress,
                *texts,
            ),
    {
        proof {
            reveal_strlit("%s");
        }
        let processed = group_progress.processed();
        let size = progress_size(processed, texts.language.as_str());
        let template = if action == Action::Download {
            &texts.download_file
        } else {
            &texts.upload_file
        };
        let default_title = replace_all_str(template.as_str(), "%s", size.as_str());
        let successful = group_progress.successful();
        let failed = group_progress.failed();
        let succ = u64_to_text(successful as u64);
        let fail = u64_to_text(failed as u64);
        let default_text = fill_count(&texts.task_count, &succ, &fail);
        let title = custom_or(title_of(&customized), default_title);
        let text = custom_or(text_of(&customized), default_text);
        let want_agent = want_agent_of(&customized);
        let total = group_progress.total();
        let progress_circle = ProgressCircle::open((successful + failed) as u64, total as u64);
        NotifyContent {
            title,
            text,
            want_agent,
            request_id: group_id,
            uid,
            live_view: true,
            progress_circle,
            x_mark: false,
        }
    }
}

} // verus!
