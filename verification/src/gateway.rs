//! What a command asks of the outside world, and what the outside world answers.
//!
//! A command never touches a file or starts a process. It names one `Action` at a time; the
//! caller carries the action out and hands back an `Event`. For the actions that are a
//! process to run, `command_line` gives the program and its arguments.

use crate::error::{shows_answer, Operation, TimerError, TimerErrorView};
use crate::text::{chars_of, CharClass};
use vstd::prelude::*;
use vstd::string::*;

verus! {

/// One thing for the caller to do.
#[derive(Debug, PartialEq, Eq)]
pub enum Action {
    /// Find out whether `path` is a regular file.
    ProbeFile { path: String },
    /// Find out whether the search path holds `command`.
    FindCommand { command: String },
    /// Ask the validator whether `schedule` is a calendar expression.
    CheckSchedule { schedule: String },
    /// Write `contents` to the file `path`.
    WriteFile { path: String, contents: String },
    /// Read the file `path`.
    ReadFile { path: String },
    /// Delete the file `path`.
    RemoveFile { path: String },
    /// Send `operation` to the control plane; `unit` is empty where it names no unit.
    Control { operation: Operation, unit: String },
    /// Show `text` to the user.
    Print { text: String },
    /// Tell the user of `error`; the command goes on.
    Report { error: TimerError },
    /// Tell the user of `error`; the command has ended.
    Abort { error: TimerError },
    /// Nothing: the command has ended well.
    Done,
}

/// `Action` over sequences of characters.
pub enum ActionView {
    ProbeFile { path: Seq<char> },
    FindCommand { command: Seq<char> },
    CheckSchedule { schedule: Seq<char> },
    WriteFile { path: Seq<char>, contents: Seq<char> },
    ReadFile { path: Seq<char> },
    RemoveFile { path: Seq<char> },
    Control { operation: Operation, unit: Seq<char> },
    Print { text: Seq<char> },
    Report { error: TimerErrorView },
    Abort { error: TimerErrorView },
    Done,
}

impl View for Action {
    type V = ActionView;

    open spec fn view(&self) -> ActionView {
        match *self {
            Action::ProbeFile { path } => ActionView::ProbeFile { path: path@ },
            Action::FindCommand { command } => ActionView::FindCommand { command: command@ },
            Action::CheckSchedule { schedule } => ActionView::CheckSchedule {
                schedule: schedule@,
            },
            Action::WriteFile { path, contents } => ActionView::WriteFile {
                path: path@,
                contents: contents@,
            },
            Action::ReadFile { path } => ActionView::ReadFile { path: path@ },
            Action::RemoveFile { path } => ActionView::RemoveFile { path: path@ },
            Action::Control { operation, unit } => ActionView::Control { operation, unit: unit@ },
            Action::Print { text } => ActionView::Print { text: text@ },
            Action::Report { error } => ActionView::Report { error: error@ },
            Action::Abort { error } => ActionView::Abort { error: error@ },
            Action::Done => ActionView::Done,
        }
    }
}

/// How an action went.
#[derive(Debug, PartialEq, Eq)]
pub enum Event {
    /// It was done, or the answer is yes.
    Succeeded,
    /// It was done and gave `text`: what a file holds, or what a process printed.
    Produced { text: String },
    /// It failed, or the answer is no; `reason` is what the system said of it.
    Failed { reason: String },
}

/// `Event` over sequences of characters.
pub enum EventView {
    Succeeded,
    Produced { text: Seq<char> },
    Failed { reason: Seq<char> },
}

impl View for Event {
    type V = EventView;

    open spec fn view(&self) -> EventView {
        match *self {
            Event::Succeeded => EventView::Succeeded,
            Event::Produced { text } => EventView::Produced { text: text@ },
            Event::Failed { reason } => EventView::Failed { reason: reason@ },
        }
    }
}

impl Clone for Action {
    fn clone(&self) -> (a: Action)
        ensures
            a == *self,
    {
        match self {
            Action::ProbeFile { path } => Action::ProbeFile { path: path.clone() },
            Action::FindCommand { command } => Action::FindCommand { command: command.clone() },
            Action::CheckSchedule { schedule } => Action::CheckSchedule {
                schedule: schedule.clone(),
            },
            Action::WriteFile { path, contents } => Action::WriteFile {
                path: path.clone(),
                contents: contents.clone(),
            },
            Action::ReadFile { path } => Action::ReadFile { path: path.clone() },
            Action::RemoveFile { path } => Action::RemoveFile { path: path.clone() },
            Action::Control { operation, unit } => Action::Control {
                operation: *operation,
                unit: unit.clone(),
            },
            Action::Print { text } => Action::Print { text: text.clone() },
            Action::Report { error } => Action::Report { error: error.clone() },
            Action::Abort { error } => Action::Abort { error: error.clone() },
            Action::Done => Action::Done,
        }
    }
}

impl Clone for Event {
    fn clone(&self) -> (e: Event)
        ensures
            e == *self,
    {
        match self {
            Event::Succeeded => Event::Succeeded,
            Event::Produced { text } => Event::Produced { text: text.clone() },
            Event::Failed { reason } => Event::Failed { reason: reason.clone() },
        }
    }
}

impl EventView {
    /// Whether the action went well.
    pub open spec fn went_well(self) -> bool {
        !(self is Failed)
    }

    /// What the action gave; nothing unless it produced a text.
    pub open spec fn text(self) -> Seq<char> {
        match self {
            EventView::Produced { text } => text,
            _ => Seq::empty(),
        }
    }

    /// What the system said of the failure; nothing unless the action failed.
    pub open spec fn reason(self) -> Seq<char> {
        match self {
            EventView::Failed { reason } => reason,
            _ => Seq::empty(),
        }
    }
}

impl Event {
    /// Whether the action went well.
    pub fn went_well(&self) -> (b: bool)
        ensures
            b == self@.went_well(),
    {
        match self {
            Event::Failed { .. } => false,
            _ => true,
        }
    }

    /// What the action gave; nothing unless it produced a text.
    pub fn into_text(self) -> (t: String)
        ensures
            t@ == self@.text(),
    {
        match self {
            Event::Produced { text } => text,
            _ => String::new(),
        }
    }

    /// What the system said of the failure; nothing unless the action failed.
    pub fn into_reason(self) -> (r: String)
        ensures
            r@ == self@.reason(),
    {
        match self {
            Event::Failed { reason } => reason,
            _ => String::new(),
        }
    }
}

/// The words that follow `systemctl --user` for `operation` on `unit`.
pub open spec fn control_words(operation: Operation, unit: Seq<char>) -> Seq<Seq<char>> {
    match operation {
        Operation::Reload => seq!["daemon-reload"@],
        Operation::Enable => seq!["enable"@, "--now"@, unit],
        Operation::Disable => seq!["disable"@, "--now"@, unit],
        Operation::Start => seq!["start"@, unit],
        Operation::Stop => seq!["stop"@, unit],
        Operation::Status => seq!["status"@, unit],
        Operation::List => seq!["list-timers"@, "--all"@],
    }
}

/// The process that carries out `action`, as the program and its arguments; `None` for an
/// action that is no process.
pub open spec fn command_words(action: ActionView) -> Option<Seq<Seq<char>>> {
    match action {
        ActionView::FindCommand { command } => Some(seq!["which"@, command]),
        ActionView::CheckSchedule { schedule } => Some(
            seq!["systemd-analyze"@, "calendar"@, schedule],
        ),
        ActionView::Control { operation, unit } => Some(
            seq!["systemctl"@, "--user"@] + control_words(operation, unit),
        ),
        _ => None,
    }
}

/// The views of the strings of `v`.
pub open spec fn views_of(v: Seq<String>) -> Seq<Seq<char>> {
    Seq::new(v.len(), |i: int| v[i]@)
}

/// The process that carries out `action`, as the program and its arguments; `None` for an
/// action that is no process.
pub fn command_line(action: &Action) -> (line: Option<Vec<String>>)
    ensures
        match line {
            Some(words) => command_words(action@) == Some(views_of(words@)),
            None => command_words(action@) is None,
        },
{
    match action {
        Action::FindCommand { command } => {
            let mut words: Vec<String> = Vec::new();
            words.push("which".to_owned());
            words.push(command.clone());
            assert(views_of(words@) =~= seq!["which"@, command@]);
            Some(words)
        },
        Action::CheckSchedule { schedule } => {
            let mut words: Vec<String> = Vec::new();
            words.push("systemd-analyze".to_owned());
            words.push("calendar".to_owned());
            words.push(schedule.clone());
            assert(views_of(words@) =~= seq!["systemd-analyze"@, "calendar"@, schedule@]);
            Some(words)
        },
        Action::Control { operation, unit } => {
            let mut words: Vec<String> = Vec::new();
            words.push("systemctl".to_owned());
            words.push("--user".to_owned());
            match operation {
                Operation::Reload => {
                    words.push("daemon-reload".to_owned());
                },
                Operation::Enable => {
                    words.push("enable".to_owned());
                    words.push("--now".to_owned());
                    words.push(unit.clone());
                },
                Operation::Disable => {
                    words.push("disable".to_owned());
                    words.push("--now".to_owned());
                    words.push(unit.clone());
                },
                Operation::Start => {
                    words.push("start".to_owned());
                    words.push(unit.clone());
                },
                Operation::Stop => {
                    words.push("stop".to_owned());
                    words.push(unit.clone());
                },
                Operation::Status => {
                    words.push("status".to_owned());
                    words.push(unit.clone());
                },
                Operation::List => {
                    words.push("list-timers".to_owned());
                    words.push("--all".to_owned());
                },
            }
            assert(views_of(words@) =~= seq!["systemctl"@, "--user"@] + control_words(
                *operation,
                unit@,
            ));
            Some(words)
        },
        _ => None,
    }
}

/// Whether what the process of `action` prints is kept from the user: it is, where the
/// process only answers a question, or where its answer is the workflow's to show.
pub open spec fn output_is_kept(action: ActionView) -> bool {
    match action {
        ActionView::FindCommand { .. } => true,
        ActionView::CheckSchedule { .. } => true,
        ActionView::Control { operation, .. } => shows_answer(operation),
        _ => false,
    }
}

/// Whether what the process of `action` prints is kept from the user.
pub fn keeps_output(action: &Action) -> (kept: bool)
    ensures
        kept == output_is_kept(action@),
{
    match action {
        Action::FindCommand { .. } => true,
        Action::CheckSchedule { .. } => true,
        Action::Control { operation, .. } => operation.has_answer(),
        _ => false,
    }
}

/// Whether a path begins with the sign for the home directory: `~` alone, or `~` and a
/// separator.
pub open spec fn leads_home(input: Seq<char>) -> bool {
    input.len() > 0 && input[0] == '~' && (input.len() == 1 || input[1] == '/')
}

/// `input` with a leading sign for the home directory replaced by `home`.
pub open spec fn home_expanded(input: Seq<char>, home: Seq<char>) -> Seq<char> {
    if leads_home(input) {
        home + input.skip(1)
    } else {
        input
    }
}

/// `shellexpand::tilde_with_context`, with `home` as the home directory. Of its result this
/// says: a leading `~` that stands alone or before `/` is replaced by `home`; an input that
/// does not begin with `~` comes back as it is; and nothing but one of the two ever happens.
#[verifier::external_body]
fn tilde_with_home(input: &str, home: &str) -> (expanded: String)
    ensures
        leads_home(input@) ==> expanded@ == home@ + input@.skip(1),
        !(input@.len() > 0 && input@[0] == '~') ==> expanded@ == input@,
        expanded@ == input@ || expanded@ == home@ + input@.skip(1),
{
    shellexpand::tilde_with_context(input, || Some(home)).into_owned()
}

/// `input` with a leading sign for the home directory replaced by `home`.
pub fn expand_home(input: &str, home: &str) -> (expanded: String)
    ensures
        expanded@ == home_expanded(input@, home@),
{
    let v = chars_of(input);
    // What comes of `~` before any other character is left to the platform by the expander;
    // here it stays as it is.
    if v.len() > 0 && v[0] == '~' && (v.len() == 1 || CharClass::Slash.test(v[1])) {
        tilde_with_home(input, home)
    } else {
        input.to_owned()
    }
}

} // verus!
