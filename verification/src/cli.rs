//! The commands, as the user gives them.

use vstd::prelude::*;

verus! {

/// What the user typed: one command, or none.
#[derive(Debug, PartialEq, Eq)]
pub struct Cli {
    pub command: Option<Commands>,
}

/// The arguments of `add`.
#[derive(Debug, PartialEq, Eq)]
pub struct AddCommand {
    /// The command line that the task runs.
    pub executable: String,
    /// The schedule of the task, as a calendar expression.
    pub when: String,
    /// The name of the task; taken from the command line where it is missing.
    pub name: Option<String>,
    /// The description of the task; made from the command line where it is missing.
    pub description: Option<String>,
    /// Whether a run that was missed is made up for.
    pub exec_if_missed: bool,
    /// Whether each step is told to the user.
    pub verbose: bool,
}

/// The arguments of a command on one task.
#[derive(Debug, PartialEq, Eq)]
pub struct NameCommand {
    /// The name of the task, with or without the timer suffix.
    pub name: String,
    /// Whether each step is told to the user.
    pub verbose: bool,
}

/// The arguments of `remove`.
#[derive(Debug, PartialEq, Eq)]
pub struct RemoveCommand {
    /// The name of the task, with or without the timer suffix.
    pub name: String,
    /// Whether each step is told to the user.
    pub verbose: bool,
    /// Whether the execution unit is deleted with the trigger unit.
    pub remove_service: bool,
}

/// The commands.
#[derive(Debug, PartialEq, Eq)]
pub enum Commands {
    /// Define a task, enable it and start it.
    Add(AddCommand),
    /// Enable a task.
    Enable(NameCommand),
    /// Disable a task.
    Disable(NameCommand),
    /// Start a task's timer.
    Start(NameCommand),
    /// Stop a task's timer.
    Stop(NameCommand),
    /// Disable a task and delete its definition.
    Remove(RemoveCommand),
    /// Show the status of a task.
    Status(NameCommand),
    /// List the timers of the user.
    List {  },
}

} // verus!
