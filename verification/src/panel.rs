//! What the window shows of a background task, and which of its requests can
//! start: how each message from a running task changes the progress and
//! status lines, and the conditions under which the window's buttons act.

use vstd::prelude::*;
use crate::text::{
    ascii_lowercase, decimal, eq_ignore_ascii_case, has_prefix, push_char, push_decimal, push_str,
    starts_with, str_eq, string_of, trim, trimmed,
};

verus! {

/// A message that a background task sends to the window.
pub enum TaskMessage {
    /// The task reached `step` of `total`.
    Progress { step: usize, total: usize, message: String },
    /// A line for the activity log.
    Log(String),
    /// The syslog scan saw the card `hash`, called `name`.
    CardFound { hash: String, name: String },
    /// The task ended, with its closing message or its error.
    Done(Result<String, String>),
}

/// A card the window knows by hash and name.
pub struct SavedCardName {
    pub hash: String,
    pub name: String,
}

/// What the window shows of the running task.
pub struct TaskView {
    pub is_busy: bool,
    pub scanning_syslog: bool,
    pub progress_step: usize,
    pub progress_total: usize,
    pub progress_msg: String,
    pub status_msg: String,
    pub card_hash: String,
    pub card_name_edit: String,
}

/// A `TaskView` as plain values.
pub struct TaskModel {
    pub is_busy: bool,
    pub scanning_syslog: bool,
    pub progress_step: usize,
    pub progress_total: usize,
    pub progress_msg: Seq<char>,
    pub status_msg: Seq<char>,
    pub card_hash: Seq<char>,
    pub card_name_edit: Seq<char>,
}

impl View for TaskView {
    type V = TaskModel;

    open spec fn view(&self) -> TaskModel {
        TaskModel {
            is_busy: self.is_busy,
            scanning_syslog: self.scanning_syslog,
            progress_step: self.progress_step,
            progress_total: self.progress_total,
            progress_msg: self.progress_msg@,
            status_msg: self.status_msg@,
            card_hash: self.card_hash@,
            card_name_edit: self.card_name_edit@,
        }
    }
}

/// The saved cards as (hash, name) pairs.
pub open spec fn cards_view(cards: Seq<SavedCardName>) -> Seq<(Seq<char>, Seq<char>)> {
    cards.map_values(|c: SavedCardName| (c.hash@, c.name@))
}

/// The name of the first saved card with `hash`, if any.
pub open spec fn card_name_for(cards: Seq<(Seq<char>, Seq<char>)>, hash: Seq<char>) -> Option<Seq<char>>
    decreases cards.len(),
{
    if cards.len() == 0 {
        None
    } else if cards[0].0 == hash {
        Some(cards[0].1)
    } else {
        card_name_for(cards.drop_first(), hash)
    }
}

/// `[step/total] message`.
pub open spec fn progress_line(step: nat, total: nat, message: Seq<char>) -> Seq<char> {
    seq!['['] + decimal(step) + seq!['/'] + decimal(total) + seq![']', ' '] + message
}

/// `Card captured: name (hash)`.
pub open spec fn captured_line(name: Seq<char>, hash: Seq<char>) -> Seq<char> {
    "Card captured: "@ + name + seq![' ', '('] + hash + seq![')']
}

/// The window after one message, and the line it logs: a progress report
/// becomes the progress and status lines; a log line is only logged; a found
/// card becomes the target hash (and its saved name, where one is known);
/// the end of a task stops the busy and scanning states and shows its
/// message, or its error behind `Error: `.
pub open spec fn task_step(v: TaskModel, msg: TaskMessage, cards: Seq<(Seq<char>, Seq<char>)>) -> (TaskModel, Seq<char>) {
    match msg {
        TaskMessage::Progress { step, total, message } => {
            let line = progress_line(step as nat, total as nat, message@);
            (
                TaskModel {
                    progress_step: step,
                    progress_total: total,
                    progress_msg: message@,
                    status_msg: line,
                    ..v
                },
                line,
            )
        },
        TaskMessage::Log(line) => (v, line@),
        TaskMessage::CardFound { hash, name } => {
            let line = captured_line(name@, hash@);
            let edit = match card_name_for(cards, hash@) {
                Some(n) => n,
                None => v.card_name_edit,
            };
            (TaskModel { card_hash: hash@, card_name_edit: edit, status_msg: line, ..v }, line)
        },
        TaskMessage::Done(res) => {
            let (status, line) = match res {
                Ok(m) => (m@, "Operation completed: "@ + m@),
                Err(e) => ("Error: "@ + e@, "Operation failed: "@ + e@),
            };
            (TaskModel { is_busy: false, scanning_syslog: false, status_msg: status, ..v }, line)
        },
    }
}

fn find_card_name(cards: &Vec<SavedCardName>, hash: &str) -> (r: Option<String>)
    ensures
        match (r, card_name_for(cards_view(cards@), hash@)) {
            (Some(a), Some(b)) => a@ == b,
            (None, None) => true,
            _ => false,
        },
{
    let ghost all = cards_view(cards@);
    let mut i: usize = 0;
    assert(all.subrange(0, all.len() as int) =~= all);
    while i < cards.len()
        invariant
            i <= cards@.len(),
            all == cards_view(cards@),
            card_name_for(all, hash@) == card_name_for(all.subrange(i as int, all.len() as int), hash@),
        decreases cards@.len() - i,
    {
        let ghost rest = all.subrange(i as int, all.len() as int);
        assert(rest[0] == (cards@[i as int].hash@, cards@[i as int].name@));
        if str_eq(cards[i].hash.as_str(), hash) {
            return Some(string_of(cards[i].name.as_str()));
        }
        assert(rest.drop_first() =~= all.subrange(i + 1, all.len() as int));
        i = i + 1;
    }
    assert(all.subrange(i as int, all.len() as int) =~= Seq::<(Seq<char>, Seq<char>)>::empty());
    None
}

fn progress_text(step: usize, total: usize, message: &str) -> (r: String)
    ensures
        r@ == progress_line(step as nat, total as nat, message@),
{
    let mut s = String::new();
    push_char(&mut s, '[');
    push_decimal(&mut s, step as u64);
    push_char(&mut s, '/');
    push_decimal(&mut s, total as u64);
    push_char(&mut s, ']');
    push_char(&mut s, ' ');
    push_str(&mut s, message);
    assert(s@ =~= progress_line(step as nat, total as nat, message@));
    s
}

/// Applies one message of the background task to the window, and gives the
/// line to log; `cards` are the saved cards as read after the message.
pub fn apply_task_message(view: &mut TaskView, msg: TaskMessage, cards: &Vec<SavedCardName>) -> (line: String)
    ensures
        (final(view)@, line@) == task_step(old(view)@, msg, cards_view(cards@)),
{
    match msg {
        TaskMessage::Progress { step, total, message } => {
            let line = progress_text(step, total, message.as_str());
            view.progress_step = step;
            view.progress_total = total;
            view.status_msg = string_of(line.as_str());
            view.progress_msg = message;
            line
        },
        TaskMessage::Log(line) => line,
        TaskMessage::CardFound { hash, name } => {
            let mut line = string_of("Card captured: ");
            push_str(&mut line, name.as_str());
            push_char(&mut line, ' ');
            push_char(&mut line, '(');
            push_str(&mut line, hash.as_str());
            push_char(&mut line, ')');
            proof {
                reveal_strlit("Card captured: ");
            }
            assert(line@ =~= captured_line(name@, hash@));
            match find_card_name(cards, hash.as_str()) {
                Some(n) => {
                    view.card_name_edit = n;
                },
                None => {},
            }
            view.card_hash = hash;
            view.status_msg = string_of(line.as_str());
            line
        },
        TaskMessage::Done(res) => {
            view.is_busy = false;
            view.scanning_syslog = false;
            match res {
                Ok(m) => {
                    let mut line = string_of("Operation completed: ");
                    push_str(&mut line, m.as_str());
                    view.status_msg = m;
                    line
                },
                Err(e) => {
                    let mut status = string_of("Error: ");
                    push_str(&mut status, e.as_str());
                    let mut line = string_of("Operation failed: ");
                    push_str(&mut line, e.as_str());
                    view.status_msg = status;
                    line
                },
            }
        },
    }
}

/// How the status line is marked.
#[derive(Clone, Copy, PartialEq, Eq, Structural, Debug)]
pub enum StatusTone {
    /// A task or a scan is running.
    Working,
    /// The last status reports a failure.
    Failed,
    /// Nothing is running and nothing failed.
    Settled,
}

/// Running work first; otherwise a status beginning with `Error` or
/// `Failed` marks a failure.
pub open spec fn status_tone_spec(is_busy: bool, scanning: bool, status: Seq<char>) -> StatusTone {
    if is_busy || scanning {
        StatusTone::Working
    } else if has_prefix(status, "Error"@) || has_prefix(status, "Failed"@) {
        StatusTone::Failed
    } else {
        StatusTone::Settled
    }
}

/// How the status line is marked.
pub fn status_tone(is_busy: bool, scanning: bool, status: &str) -> (r: StatusTone)
    ensures
        r == status_tone_spec(is_busy, scanning, status@),
{
    if is_busy || scanning {
        StatusTone::Working
    } else if starts_with(status, "Error") || starts_with(status, "Failed") {
        StatusTone::Failed
    } else {
        StatusTone::Settled
    }
}

/// A task that ended in an error leaves a status marked as failed, whatever
/// the window showed before and whatever the error says.
pub proof fn lemma_failed_task_shows_failure(v: TaskModel, error: String, cards: Seq<(Seq<char>, Seq<char>)>)
    ensures
        ({
            let after = task_step(v, TaskMessage::Done(Err(error)), cards).0;
            &&& !after.is_busy
            &&& !after.scanning_syslog
            &&& status_tone_spec(after.is_busy, after.scanning_syslog, after.status_msg)
                == StatusTone::Failed
        }),
{
    reveal_strlit("Error: ");
    reveal_strlit("Error");
    let status = "Error: "@ + error@;
    assert(status.subrange(0, 5) =~= "Error"@);
}

/// What is still missing before a card skin can be written, in the order
/// the window lists it.
pub open spec fn wallet_needs_spec(has_device: bool, card_hash: Seq<char>, has_art: bool) -> Seq<Seq<char>> {
    (if has_device { seq![] } else { seq!["connect iPhone"@] }) + (if trimmed(card_hash).len() > 0 {
        seq![]
    } else {
        seq!["enter card hash"@]
    }) + (if has_art { seq![] } else { seq!["choose image"@] })
}

/// The names of plain strings.
pub open spec fn strs_view(v: Seq<&'static str>) -> Seq<Seq<char>> {
    v.map_values(|s: &'static str| s@)
}

/// What is still missing before a card skin can be written.
pub fn wallet_flash_needs(has_device: bool, card_hash: &str, has_art: bool) -> (r: Vec<&'static str>)
    ensures
        strs_view(r@) == wallet_needs_spec(has_device, card_hash@, has_art),
{
    let mut r: Vec<&'static str> = Vec::new();
    if !has_device {
        r.push("connect iPhone");
    }
    let hash = trim(card_hash);
    if hash.as_str().unicode_len() == 0 {
        r.push("enter card hash");
    }
    if !has_art {
        r.push("choose image");
    }
    assert(strs_view(r@) =~= wallet_needs_spec(has_device, card_hash@, has_art));
    r
}

/// Whether a card skin can be written now: nothing is running, a device is
/// selected, the card hash is not blank and artwork is prepared.
pub fn wallet_can_flash(is_busy: bool, has_device: bool, card_hash: &str, has_art: bool) -> (r: bool)
    ensures
        r == (!is_busy && has_device && trimmed(card_hash@).len() > 0 && has_art),
{
    if is_busy || !has_device || !has_art {
        return false;
    }
    let hash = trim(card_hash);
    hash.as_str().unicode_len() > 0
}

/// Whether the previous skin can be written back now: nothing is running, a
/// device is selected and the card hash is not blank.
pub fn wallet_can_revert(is_busy: bool, has_device: bool, card_hash: &str) -> (r: bool)
    ensures
        r == (!is_busy && has_device && trimmed(card_hash@).len() > 0),
{
    if is_busy || !has_device {
        return false;
    }
    let hash = trim(card_hash);
    hash.as_str().unicode_len() > 0
}

/// An idle window can write a card skin exactly when nothing is missing.
pub proof fn lemma_wallet_flash_when_nothing_missing(has_device: bool, card_hash: Seq<char>, has_art: bool)
    ensures
        (has_device && trimmed(card_hash).len() > 0 && has_art) <==> wallet_needs_spec(
            has_device,
            card_hash,
            has_art,
        ).len() == 0,
{
}

/// What is still missing before a passcode theme can be written.
pub open spec fn theme_needs_spec(has_device: bool, has_theme: bool) -> Seq<Seq<char>> {
    (if has_device { seq![] } else { seq!["connect iPhone"@] }) + (if has_theme {
        seq![]
    } else {
        seq!["select theme"@]
    })
}

/// What is still missing before a passcode theme can be written.
pub fn theme_flash_needs(has_device: bool, has_theme: bool) -> (r: Vec<&'static str>)
    ensures
        strs_view(r@) == theme_needs_spec(has_device, has_theme),
{
    let mut r: Vec<&'static str> = Vec::new();
    if !has_device {
        r.push("connect iPhone");
    }
    if !has_theme {
        r.push("select theme");
    }
    assert(strs_view(r@) =~= theme_needs_spec(has_device, has_theme));
    r
}

/// Whether a passcode theme can be written now: nothing is running, a
/// device is selected and a theme is loaded.
pub fn theme_can_flash(is_busy: bool, has_device: bool, has_theme: bool) -> (r: bool)
    ensures
        r == (!is_busy && has_device && has_theme),
        r == (!is_busy && theme_needs_spec(has_device, has_theme).len() == 0),
{
    !is_busy && has_device && has_theme
}

/// Artwork with this file extension is a PDF, in any case.
pub fn is_pdf_artwork(extension: &str) -> (r: bool)
    ensures
        r == (ascii_lowercase(extension@) == ascii_lowercase("pdf"@)),
{
    eq_ignore_ascii_case(extension, "pdf")
}

/// A file with this extension is a theme package (`passthm` or `zip`, in
/// any case) rather than a picture to slice.
pub fn is_theme_package(extension: &str) -> (r: bool)
    ensures
        r == (ascii_lowercase(extension@) == ascii_lowercase("passthm"@) || ascii_lowercase(
            extension@,
        ) == ascii_lowercase("zip"@)),
{
    eq_ignore_ascii_case(extension, "passthm") || eq_ignore_ascii_case(extension, "zip")
}

} // verus!
