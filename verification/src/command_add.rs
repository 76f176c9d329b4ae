//! `add`, from arguments that may be missing.

use crate::error::{TimerError, TimerErrorView};
use crate::gateway::{Action, ActionView};
use crate::naming::option_view;
use crate::subcommand::{add_workflow, begin_add, Workflow};
use vstd::prelude::*;
use vstd::string::*;

verus! {

/// The arguments of `add` as a command line gives them: each is there or not.
#[derive(Debug, PartialEq, Eq)]
pub struct AddArguments {
    /// The command line that the task runs.
    pub executable: Option<String>,
    /// The schedule of the task.
    pub schedule: Option<String>,
    /// The description of the task.
    pub description: Option<String>,
    /// The name of the task.
    pub name: Option<String>,
    /// Whether a run that was missed is made up for.
    pub exec_if_missed: bool,
}

/// The name by which the user knows the argument that holds the command line.
pub open spec fn executable_argument() -> Seq<char> {
    "exec"@
}

/// The name by which the user knows the argument that holds the schedule.
pub open spec fn schedule_argument() -> Seq<char> {
    "schedule"@
}

/// Begins `add`. The command line and the schedule must be there: where one is missing,
/// nothing begins, and the error names the first that is missing.
pub fn add_timer(arguments: &AddArguments, home: &str) -> (start: Result<
    (Workflow, Action),
    TimerError,
>)
    ensures
        match start {
            Ok(begun) => arguments.executable is Some && arguments.schedule is Some && begun.0@
                == add_workflow(
                arguments.executable->0@,
                arguments.schedule->0@,
                option_view(arguments.name),
                option_view(arguments.description),
                arguments.exec_if_missed,
                home@,
            ) && begun.1@ == (ActionView::ProbeFile { path: begun.0@.command }),
            Err(e) => if arguments.executable is None {
                e@ == (TimerErrorView::MissingArgument { name: executable_argument() })
            } else {
                arguments.schedule is None && e@ == (TimerErrorView::MissingArgument {
                    name: schedule_argument(),
                })
            },
        },
{
    match &arguments.executable {
        None => Err(TimerError::MissingArgument { name: "exec".to_owned() }),
        Some(executable) => match &arguments.schedule {
            None => Err(TimerError::MissingArgument { name: "schedule".to_owned() }),
            Some(schedule) => Ok(
                begin_add(
                    executable.as_str(),
                    schedule.as_str(),
                    &arguments.name,
                    &arguments.description,
                    arguments.exec_if_missed,
                    home,
                ),
            ),
        },
    }
}

} // verus!
