//! Per-user scheduled tasks, each kept as a pair of unit files.
//!
//! A task is a command line to run on a calendar schedule. It is defined by two unit files
//! in the user's unit directory: an execution unit that says what to run, and a trigger
//! unit that says when. The control plane that reads these files and runs the tasks is not
//! part of this library, and neither is any file or process: a command is a `Workflow` that
//! names one `Action` at a time and is told by an `Event` how it went. What the library
//! decides is the name of a task, the texts and places of its two files, and the order of
//! the steps of each command.
//!
//! - `naming`: the name and the description of a task.
//! - `usertimer`: the task, and the names, places and texts of its unit files.
//! - `unitfile`: which execution unit a trigger unit names.
//! - `gateway`: actions and events, and the processes that stand behind actions.
//! - `subcommand`: the commands as workflows.
//! - `command_add`: `add` from arguments that may be missing.
//! - `cli`: the commands as the user gives them.
//! - `error`: the failures and their messages.
//! - `text`: strings as sequences of characters.
//! - `laws`: what is proved of all this.

pub mod cli;
pub mod command_add;
pub mod error;
pub mod gateway;
pub mod laws;
pub mod naming;
pub mod subcommand;
pub mod text;
pub mod unitfile;
pub mod usertimer;
