//! One scheduled task, and the two unit files that define it.
//!
//! The execution unit says what to run, the trigger unit says when. Both files stand in the
//! user's unit directory under the same base name, so that the trigger finds the execution
//! unit without naming it.

use crate::gateway::{Action, ActionView};
use crate::naming::{base_name, service_suffix, timer_suffix, unit_base};
use vstd::prelude::*;
use vstd::string::*;

verus! {

/// A scheduled task.
#[derive(Debug, PartialEq, Eq)]
pub struct UserTimer {
    /// The command line to run.
    pub executable: String,
    /// What the task is for, in words.
    pub description: String,
    /// When to run, as a calendar expression.
    pub schedule: String,
    /// The name of the task, with or without the timer suffix.
    pub name: String,
    /// Whether a run that was missed is made up for.
    pub exec_if_missed: bool,
}

/// `UserTimer` over sequences of characters.
pub struct UserTimerView {
    pub executable: Seq<char>,
    pub description: Seq<char>,
    pub schedule: Seq<char>,
    pub name: Seq<char>,
    pub exec_if_missed: bool,
}

impl View for UserTimer {
    type V = UserTimerView;

    open spec fn view(&self) -> UserTimerView {
        UserTimerView {
            executable: self.executable@,
            description: self.description@,
            schedule: self.schedule@,
            name: self.name@,
            exec_if_missed: self.exec_if_missed,
        }
    }
}

/// The user's unit directory under the home directory `home`, with the separator that
/// ends it.
pub open spec fn unit_dir(home: Seq<char>) -> Seq<char> {
    home + "/.config/systemd/user/"@
}

/// The line of a trigger unit that makes up for missed runs; nothing where that is not
/// asked for.
pub open spec fn catch_up_line(exec_if_missed: bool) -> Seq<char> {
    if exec_if_missed {
        "Persistent=true"@
    } else {
        Seq::empty()
    }
}

impl UserTimerView {
    /// The name of the execution unit.
    pub open spec fn service_unit(self) -> Seq<char> {
        base_name(self.name) + service_suffix()
    }

    /// The name of the trigger unit.
    pub open spec fn timer_unit(self) -> Seq<char> {
        base_name(self.name) + timer_suffix()
    }

    /// Where the execution unit is kept.
    pub open spec fn service_path(self, home: Seq<char>) -> Seq<char> {
        unit_dir(home) + self.service_unit()
    }

    /// Where the trigger unit is kept.
    pub open spec fn timer_path(self, home: Seq<char>) -> Seq<char> {
        unit_dir(home) + self.timer_unit()
    }

    /// The text of the execution unit.
    pub open spec fn service_text(self) -> Seq<char> {
        "[Unit]\nDescription="@ + self.description + "\n\n[Service]\nType=oneshot\nExecStart="@
            + self.executable + "\n"@
    }

    /// The text of the trigger unit up to the place of the line that makes up for missed
    /// runs.
    pub open spec fn timer_text_head(self) -> Seq<char> {
        "[Unit]\nDescription="@ + self.description + "\n\n[Timer]\nOnCalendar="@ + self.schedule
            + "\n"@
    }

    /// The text of the trigger unit.
    pub open spec fn timer_text(self) -> Seq<char> {
        self.timer_text_head() + catch_up_line(self.exec_if_missed) + timer_text_tail()
    }
}

/// The text of a trigger unit after the place of the line that makes up for missed runs.
pub open spec fn timer_text_tail() -> Seq<char> {
    "\n\n[Install]\nWantedBy=timers.target\n"@
}

/// The user's unit directory under the home directory `home`, with the separator that
/// ends it.
pub fn systemd_dir(home: &str) -> (dir: String)
    ensures
        dir@ == unit_dir(home@),
{
    let mut dir = home.to_owned();
    dir.append("/.config/systemd/user/");
    dir
}

impl UserTimer {
    /// The name of the execution unit.
    pub fn service_unit_name(&self) -> (unit: String)
        ensures
            unit@ == self@.service_unit(),
    {
        let mut unit = unit_base(self.name.as_str());
        unit.append(".service");
        unit
    }

    /// The name of the trigger unit.
    pub fn timer_unit_name(&self) -> (unit: String)
        ensures
            unit@ == self@.timer_unit(),
    {
        let mut unit = unit_base(self.name.as_str());
        unit.append(".timer");
        unit
    }

    /// Where the execution unit is kept, for the home directory `home`.
    pub fn service_file_path(&self, home: &str) -> (path: String)
        ensures
            path@ == self@.service_path(home@),
    {
        let mut path = systemd_dir(home);
        let unit = self.service_unit_name();
        path.append(unit.as_str());
        path
    }

    /// Where the trigger unit is kept, for the home directory `home`.
    pub fn timer_file_path(&self, home: &str) -> (path: String)
        ensures
            path@ == self@.timer_path(home@),
    {
        let mut path = systemd_dir(home);
        let unit = self.timer_unit_name();
        path.append(unit.as_str());
        path
    }

    /// The text of the execution unit.
    pub fn service_file_contents(&self) -> (text: String)
        ensures
            text@ == self@.service_text(),
    {
        let mut text = "[Unit]\nDescription=".to_owned();
        text.append(self.description.as_str());
        text.append("\n\n[Service]\nType=oneshot\nExecStart=");
        text.append(self.executable.as_str());
        text.append("\n");
        text
    }

    /// The text of the trigger unit.
    pub fn timer_file_contents(&self) -> (text: String)
        ensures
            text@ == self@.timer_text(),
    {
        let mut text = "[Unit]\nDescription=".to_owned();
        text.append(self.description.as_str());
        text.append("\n\n[Timer]\nOnCalendar=");
        text.append(self.schedule.as_str());
        text.append("\n");
        if self.exec_if_missed {
            text.append("Persistent=true");
        }
        text.append("\n\n[Install]\nWantedBy=timers.target\n");
        assert(text@ =~= self@.timer_text());
        text
    }

    /// The writing of the execution unit, for the caller to carry out.
    pub fn create_service_file(&self, home: &str) -> (action: Action)
        ensures
            action@ == (ActionView::WriteFile {
                path: self@.service_path(home@),
                contents: self@.service_text(),
            }),
    {
        Action::WriteFile { path: self.service_file_path(home), contents: self.service_file_contents() }
    }

    /// The writing of the trigger unit, for the caller to carry out.
    pub fn create_timer_file(&self, home: &str) -> (action: Action)
        ensures
            action@ == (ActionView::WriteFile {
                path: self@.timer_path(home@),
                contents: self@.timer_text(),
            }),
    {
        Action::WriteFile { path: self.timer_file_path(home), contents: self.timer_file_contents() }
    }
}

impl Clone for UserTimer {
    fn clone(&self) -> (copy: UserTimer)
        ensures
            copy == *self,
    {
        UserTimer {
            executable: self.executable.clone(),
            description: self.description.clone(),
            schedule: self.schedule.clone(),
            name: self.name.clone(),
            exec_if_missed: self.exec_if_missed,
        }
    }
}

} // verus!
