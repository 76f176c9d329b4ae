//! The commands, each as a run of actions.
//!
//! A command is a `Workflow`: a small state machine that names the next `Action` and waits
//! for the `Event` that tells how it went. The caller carries the actions out, one at a
//! time, until the workflow answers `Done` or `Abort`. A step that fails ends the command,
//! with two exceptions: a command that is no file is looked for on the search path, and
//! `remove` goes on when a file cannot be deleted. Nothing is tried twice.

use crate::cli::{AddCommand, Cli, Commands, NameCommand, RemoveCommand};
use crate::error::{
    names_unit, shows_answer, Artifact, Operation, TimerError, TimerErrorView,
};
use crate::gateway::{expand_home, home_expanded, Action, ActionView, Event, EventView};
use crate::naming::{
    add_dot_timer_extension, canonical_name, first_word, first_word_of, get_timer_description,
    get_timer_name, option_view, resolved_description, resolved_name,
};
use crate::unitfile::{find_referenced_unit, referenced_unit};
use crate::usertimer::{systemd_dir, unit_dir, UserTimer, UserTimerView};
use vstd::prelude::*;
use vstd::string::*;

verus! {

/// What a workflow is waiting for.
#[derive(Clone, Copy, Debug, PartialEq, Eq, Structural)]
pub enum Stage {
    /// `add`: whether the command is a regular file.
    ProbingExecutable,
    /// `add`: whether the command is on the search path.
    SearchingExecutable,
    /// `add`: whether the schedule is valid.
    ValidatingSchedule,
    /// `add`: the writing of the execution unit.
    WritingService,
    /// `add`: the writing of the trigger unit.
    WritingTimer,
    /// `add`: the reload that makes the new units known.
    LoadingUnits,
    /// `add`: the enabling of the trigger unit.
    Enabling,
    /// `add`: the start of the trigger unit.
    Starting,
    /// A command that is one request to the control plane: the answer.
    Calling(Operation),
    /// `status` and `list`: the showing of what the control plane said.
    Showing,
    /// `remove`: the disabling of the trigger unit.
    Disabling,
    /// `remove`: the deletion of the trigger unit.
    RemovingTimer,
    /// `remove`: the telling that the trigger unit could not be deleted.
    ReportingTimer,
    /// `remove`: the reading of what is left of the trigger unit.
    ReadingTimer,
    /// `remove`: the deletion of the execution unit.
    RemovingService,
    /// `remove`: the telling that the execution unit could not be deleted.
    ReportingService,
    /// `remove`: the reload that makes the control plane forget the units.
    ForgettingUnits,
    /// Nothing: the command has ended.
    Finished,
}

/// A command under way.
#[derive(Debug, PartialEq, Eq)]
pub struct Workflow {
    /// What the workflow is waiting for.
    pub stage: Stage,
    /// The task that the command is about.
    pub timer: UserTimer,
    /// The home directory of the user.
    pub home: String,
    /// `add`: the command line as the user gave it.
    pub request: String,
    /// `add`: where the command of the task is looked for.
    pub command: String,
    /// `remove`: whether the execution unit goes too.
    pub cascade: bool,
}

/// `Workflow` over sequences of characters.
pub struct WorkflowView {
    pub stage: Stage,
    pub timer: UserTimerView,
    pub home: Seq<char>,
    pub request: Seq<char>,
    pub command: Seq<char>,
    pub cascade: bool,
}

impl View for Workflow {
    type V = WorkflowView;

    open spec fn view(&self) -> WorkflowView {
        WorkflowView {
            stage: self.stage,
            timer: self.timer@,
            home: self.home@,
            request: self.request@,
            command: self.command@,
            cascade: self.cascade,
        }
    }
}

impl WorkflowView {
    /// The workflow at another stage.
    pub open spec fn at(self, stage: Stage) -> WorkflowView {
        WorkflowView { stage, ..self }
    }

    /// The unit that `operation` is about: the trigger unit of the task, or none.
    pub open spec fn unit_for(self, operation: Operation) -> Seq<char> {
        if names_unit(operation) {
            self.timer.timer_unit()
        } else {
            Seq::empty()
        }
    }

    /// The request `operation` to the control plane.
    pub open spec fn call(self, operation: Operation) -> ActionView {
        ActionView::Control { operation, unit: self.unit_for(operation) }
    }

    /// The end of the command over a failed `operation`.
    pub open spec fn call_failed(self, operation: Operation) -> ActionView {
        ActionView::Abort {
            error: TimerErrorView::ControlFailed { operation, unit: self.unit_for(operation) },
        }
    }

    /// The writing of the execution unit.
    pub open spec fn write_service(self) -> ActionView {
        ActionView::WriteFile {
            path: self.timer.service_path(self.home),
            contents: self.timer.service_text(),
        }
    }

    /// The writing of the trigger unit.
    pub open spec fn write_timer(self) -> ActionView {
        ActionView::WriteFile {
            path: self.timer.timer_path(self.home),
            contents: self.timer.timer_text(),
        }
    }

    /// What `remove` does once it is through with the trigger unit: it looks for the
    /// execution unit where that goes too, else it reloads.
    pub open spec fn after_timer(self) -> (WorkflowView, ActionView) {
        if self.cascade {
            (
                self.at(Stage::ReadingTimer),
                ActionView::ReadFile { path: self.timer.timer_path(self.home) },
            )
        } else {
            (self.at(Stage::ForgettingUnits), self.call(Operation::Reload))
        }
    }

    /// The execution unit that `remove` deletes, given how the reading of the trigger unit
    /// went: the unit that the text names, else the one that shares the task's base name.
    pub open spec fn service_target(self, e: EventView) -> Seq<char> {
        match e {
            EventView::Produced { text } => match referenced_unit(text) {
                Some(unit) => unit,
                None => self.timer.service_unit(),
            },
            _ => self.timer.service_unit(),
        }
    }

    /// The stage after this one and the action to carry out, given how the last action
    /// went.
    pub open spec fn step(self, e: EventView) -> (WorkflowView, ActionView) {
        match self.stage {
            Stage::ProbingExecutable => if e.went_well() {
                (
                    self.at(Stage::ValidatingSchedule),
                    ActionView::CheckSchedule { schedule: self.timer.schedule },
                )
            } else {
                (
                    self.at(Stage::SearchingExecutable),
                    ActionView::FindCommand { command: self.command },
                )
            },
            Stage::SearchingExecutable => if e.went_well() {
                (
                    self.at(Stage::ValidatingSchedule),
                    ActionView::CheckSchedule { schedule: self.timer.schedule },
                )
            } else {
                (
                    self.at(Stage::Finished),
                    ActionView::Abort {
                        error: TimerErrorView::InvalidExecutable { executable: self.request },
                    },
                )
            },
            Stage::ValidatingSchedule => if e.went_well() {
                (self.at(Stage::WritingService), self.write_service())
            } else {
                (
                    self.at(Stage::Finished),
                    ActionView::Abort {
                        error: TimerErrorView::InvalidSchedule { schedule: self.timer.schedule },
                    },
                )
            },
            Stage::WritingService => if e.went_well() {
                (self.at(Stage::WritingTimer), self.write_timer())
            } else {
                (
                    self.at(Stage::Finished),
                    ActionView::Abort {
                        error: TimerErrorView::CreateFailed {
                            artifact: Artifact::Service,
                            reason: e.reason(),
                        },
                    },
                )
            },
            Stage::WritingTimer => if e.went_well() {
                (self.at(Stage::LoadingUnits), self.call(Operation::Reload))
            } else {
                (
                    self.at(Stage::Finished),
                    ActionView::Abort {
                        error: TimerErrorView::CreateFailed {
                            artifact: Artifact::Timer,
                            reason: e.reason(),
                        },
                    },
                )
            },
            Stage::LoadingUnits => if e.went_well() {
                (self.at(Stage::Enabling), self.call(Operation::Enable))
            } else {
                (self.at(Stage::Finished), self.call_failed(Operation::Reload))
            },
            Stage::Enabling => if e.went_well() {
                (self.at(Stage::Starting), self.call(Operation::Start))
            } else {
                (self.at(Stage::Finished), self.call_failed(Operation::Enable))
            },
            Stage::Starting => if e.went_well() {
                (self.at(Stage::Finished), ActionView::Done)
            } else {
                (self.at(Stage::Finished), self.call_failed(Operation::Start))
            },
            Stage::Calling(operation) => if !e.went_well() {
                (self.at(Stage::Finished), self.call_failed(operation))
            } else if shows_answer(operation) {
                (self.at(Stage::Showing), ActionView::Print { text: e.text() })
            } else {
                (self.at(Stage::Finished), ActionView::Done)
            },
            Stage::Showing => (self.at(Stage::Finished), ActionView::Done),
            Stage::Disabling => if e.went_well() {
                (
                    self.at(Stage::RemovingTimer),
                    ActionView::RemoveFile { path: self.timer.timer_path(self.home) },
                )
            } else {
                (self.at(Stage::Finished), self.call_failed(Operation::Disable))
            },
            Stage::RemovingTimer => if e.went_well() {
                self.after_timer()
            } else {
                (
                    self.at(Stage::ReportingTimer),
                    ActionView::Report {
                        error: TimerErrorView::RemoveFailed {
                            artifact: Artifact::Timer,
                            reason: e.reason(),
                        },
                    },
                )
            },
            Stage::ReportingTimer => self.after_timer(),
            Stage::ReadingTimer => (
                self.at(Stage::RemovingService),
                ActionView::RemoveFile { path: unit_dir(self.home) + self.service_target(e) },
            ),
            Stage::RemovingService => if e.went_well() {
                (self.at(Stage::ForgettingUnits), self.call(Operation::Reload))
            } else {
                (
                    self.at(Stage::ReportingService),
                    ActionView::Report {
                        error: TimerErrorView::RemoveFailed {
                            artifact: Artifact::Service,
                            reason: e.reason(),
                        },
                    },
                )
            },
            Stage::ReportingService => (self.at(Stage::ForgettingUnits), self.call(Operation::Reload)),
            Stage::ForgettingUnits => if e.went_well() {
                (self.at(Stage::Finished), ActionView::Done)
            } else {
                (self.at(Stage::Finished), self.call_failed(Operation::Reload))
            },
            Stage::Finished => (self, ActionView::Done),
        }
    }
}

/// A task of which only the name is known.
pub open spec fn bare_timer(name: Seq<char>) -> UserTimerView {
    UserTimerView {
        executable: Seq::empty(),
        description: Seq::empty(),
        schedule: Seq::empty(),
        name,
        exec_if_missed: true,
    }
}

/// The workflow of a command on the task `name`, at its first stage.
pub open spec fn unit_workflow(
    stage: Stage,
    name: Seq<char>,
    home: Seq<char>,
    cascade: bool,
) -> WorkflowView {
    WorkflowView {
        stage,
        timer: bare_timer(name),
        home,
        request: Seq::empty(),
        command: Seq::empty(),
        cascade,
    }
}

/// The workflow of `add`, at its first stage. The task runs the command line with the home
/// directory written out, under the canonical form of its name.
pub open spec fn add_workflow(
    executable: Seq<char>,
    when: Seq<char>,
    name: Option<Seq<char>>,
    description: Option<Seq<char>>,
    exec_if_missed: bool,
    home: Seq<char>,
) -> WorkflowView {
    WorkflowView {
        stage: Stage::ProbingExecutable,
        timer: UserTimerView {
            executable: home_expanded(executable, home),
            description: resolved_description(executable, description),
            schedule: when,
            name: canonical_name(resolved_name(executable, name)),
            exec_if_missed,
        },
        home,
        request: executable,
        command: home_expanded(first_word(executable), home),
        cascade: false,
    }
}

impl Workflow {
    /// The request `operation` to the control plane.
    fn call(&self, operation: Operation) -> (action: Action)
        ensures
            action@ == self@.call(operation),
    {
        let unit = if operation.has_unit() {
            self.timer.timer_unit_name()
        } else {
            String::new()
        };
        Action::Control { operation, unit }
    }

    /// The end of the command over a failed `operation`.
    fn call_failed(&self, operation: Operation) -> (action: Action)
        ensures
            action@ == self@.call_failed(operation),
    {
        let unit = if operation.has_unit() {
            self.timer.timer_unit_name()
        } else {
            String::new()
        };
        Action::Abort { error: TimerError::ControlFailed { operation, unit } }
    }

    /// What `remove` does once it is through with the trigger unit.
    fn after_timer(&mut self) -> (action: Action)
        ensures
            (final(self)@, action@) == old(self)@.after_timer(),
    {
        if self.cascade {
            self.stage = Stage::ReadingTimer;
            Action::ReadFile { path: self.timer.timer_file_path(self.home.as_str()) }
        } else {
            self.stage = Stage::ForgettingUnits;
            self.call(Operation::Reload)
        }
    }

    /// The path of the execution unit that `remove` deletes, given how the reading of the
    /// trigger unit went.
    fn service_target_path(&self, event: Event) -> (path: String)
        ensures
            path@ == unit_dir(self@.home) + self@.service_target(event@),
    {
        let mut path = systemd_dir(self.home.as_str());
        let named = match event {
            Event::Produced { text } => find_referenced_unit(text.as_str()),
            _ => None,
        };
        match named {
            Some(unit) => {
                path.append(unit.as_str());
            },
            None => {
                let unit = self.timer.service_unit_name();
                path.append(unit.as_str());
            },
        }
        path
    }

    /// Takes in how the last action went, moves to the next stage and gives the action to
    /// carry out.
    pub fn advance(&mut self, event: Event) -> (action: Action)
        ensures
            (final(self)@, action@) == old(self)@.step(event@),
    {
        let good = event.went_well();
        match self.stage {
            Stage::ProbingExecutable => {
                if good {
                    self.stage = Stage::ValidatingSchedule;
                    Action::CheckSchedule { schedule: self.timer.schedule.clone() }
                } else {
                    self.stage = Stage::SearchingExecutable;
                    Action::FindCommand { command: self.command.clone() }
                }
            },
            Stage::SearchingExecutable => {
                if good {
                    self.stage = Stage::ValidatingSchedule;
                    Action::CheckSchedule { schedule: self.timer.schedule.clone() }
                } else {
                    self.stage = Stage::Finished;
                    Action::Abort {
                        error: TimerError::InvalidExecutable { executable: self.request.clone() },
                    }
                }
            },
            Stage::ValidatingSchedule => {
                if good {
                    self.stage = Stage::WritingService;
                    self.timer.create_service_file(self.home.as_str())
                } else {
                    self.stage = Stage::Finished;
                    Action::Abort {
                        error: TimerError::InvalidSchedule { schedule: self.timer.schedule.clone() },
                    }
                }
            },
            Stage::WritingService => {
                if good {
                    self.stage = Stage::WritingTimer;
                    self.timer.create_timer_file(self.home.as_str())
                } else {
                    self.stage = Stage::Finished;
                    Action::Abort {
                        error: TimerError::CreateFailed {
                            artifact: Artifact::Service,
                            reason: event.into_reason(),
                        },
                    }
                }
            },
            Stage::WritingTimer => {
                if good {
                    self.stage = Stage::LoadingUnits;
                    self.call(Operation::Reload)
                } else {
                    self.stage = Stage::Finished;
                    Action::Abort {
                        error: TimerError::CreateFailed {
                            artifact: Artifact::Timer,
                            reason: event.into_reason(),
                        },
                    }
                }
            },
            Stage::LoadingUnits => {
                if good {
                    self.stage = Stage::Enabling;
                    self.call(Operation::Enable)
                } else {
                    self.stage = Stage::Finished;
                    self.call_failed(Operation::Reload)
                }
            },
            Stage::Enabling => {
                if good {
                    self.stage = Stage::Starting;
                    self.call(Operation::Start)
                } else {
                    self.stage = Stage::Finished;
                    self.call_failed(Operation::Enable)
                }
            },
            Stage::Starting => {
                self.stage = Stage::Finished;
                if good {
                    Action::Done
                } else {
                    self.call_failed(Operation::Start)
                }
            },
            Stage::Calling(operation) => {
                if !good {
                    self.stage = Stage::Finished;
                    self.call_failed(operation)
                } else if operation.has_answer() {
                    self.stage = Stage::Showing;
                    Action::Print { text: event.into_text() }
                } else {
                    self.stage = Stage::Finished;
                    Action::Done
                }
            },
            Stage::Showing => {
                self.stage = Stage::Finished;
                Action::Done
            },
            Stage::Disabling => {
                if good {
                    self.stage = Stage::RemovingTimer;
                    Action::RemoveFile { path: self.timer.timer_file_path(self.home.as_str()) }
                } else {
                    self.stage = Stage::Finished;
                    self.call_failed(Operation::Disable)
                }
            },
            Stage::RemovingTimer => {
                if good {
                    self.after_timer()
                } else {
                    self.stage = Stage::ReportingTimer;
                    Action::Report {
                        error: TimerError::RemoveFailed {
                            artifact: Artifact::Timer,
                            reason: event.into_reason(),
                        },
                    }
                }
            },
            Stage::ReportingTimer => self.after_timer(),
            Stage::ReadingTimer => {
                self.stage = Stage::RemovingService;
                Action::RemoveFile { path: self.service_target_path(event) }
            },
            Stage::RemovingService => {
                if good {
                    self.stage = Stage::ForgettingUnits;
                    self.call(Operation::Reload)
                } else {
                    self.stage = Stage::ReportingService;
                    Action::Report {
                        error: TimerError::RemoveFailed {
                            artifact: Artifact::Service,
                            reason: event.into_reason(),
                        },
                    }
                }
            },
            Stage::ReportingService => {
                self.stage = Stage::ForgettingUnits;
                self.call(Operation::Reload)
            },
            Stage::ForgettingUnits => {
                self.stage = Stage::Finished;
                if good {
                    Action::Done
                } else {
                    self.call_failed(Operation::Reload)
                }
            },
            Stage::Finished => Action::Done,
        }
    }

    /// Whether the command has ended.
    pub fn is_finished(&self) -> (b: bool)
        ensures
            b == (self@.stage == Stage::Finished),
    {
        self.stage == Stage::Finished
    }
}

/// A task of which only the name is known.
fn named_timer(name: String) -> (timer: UserTimer)
    ensures
        timer@ == bare_timer(name@),
{
    UserTimer {
        executable: String::new(),
        description: String::new(),
        schedule: String::new(),
        name,
        exec_if_missed: true,
    }
}

/// The workflow of a command that is one request to the control plane about the task
/// `name`, and the request.
fn single_call(operation: Operation, name: &str) -> (start: (Workflow, Action))
    ensures
        start.0@ == unit_workflow(
            Stage::Calling(operation),
            canonical_name(name@),
            Seq::empty(),
            false,
        ),
        start.1@ == start.0@.call(operation),
{
    let workflow = Workflow {
        stage: Stage::Calling(operation),
        timer: named_timer(add_dot_timer_extension(name)),
        home: String::new(),
        request: String::new(),
        command: String::new(),
        cascade: false,
    };
    let action = workflow.call(operation);
    (workflow, action)
}

/// Begins `add` with the arguments one by one.
pub(crate) fn begin_add(
    executable: &str,
    when: &str,
    name: &Option<String>,
    description: &Option<String>,
    exec_if_missed: bool,
    home: &str,
) -> (start: (Workflow, Action))
    ensures
        start.0@ == add_workflow(
            executable@,
            when@,
            option_view(*name),
            option_view(*description),
            exec_if_missed,
            home@,
        ),
        start.1@ == (ActionView::ProbeFile { path: start.0@.command }),
{
    let timer_name = get_timer_name(executable, name);
    let full_timer_name = add_dot_timer_extension(timer_name.as_str());
    let word = first_word_of(executable);
    let command = expand_home(word.as_str(), home);
    let workflow = Workflow {
        stage: Stage::ProbingExecutable,
        timer: UserTimer {
            executable: expand_home(executable, home),
            description: get_timer_description(executable, description),
            schedule: when.to_owned(),
            name: full_timer_name,
            exec_if_missed,
        },
        home: home.to_owned(),
        request: executable.to_owned(),
        command: command.clone(),
        cascade: false,
    };
    (workflow, Action::ProbeFile { path: command })
}

/// Begins `add`: the task is made out from the arguments, and the first thing to learn is
/// whether its command is a regular file.
pub fn add_timer_command(add_cmd: &AddCommand, home: &str) -> (start: (Workflow, Action))
    ensures
        start.0@ == add_workflow(
            add_cmd.executable@,
            add_cmd.when@,
            option_view(add_cmd.name),
            option_view(add_cmd.description),
            add_cmd.exec_if_missed,
            home@,
        ),
        start.1@ == (ActionView::ProbeFile { path: start.0@.command }),
{
    begin_add(
        add_cmd.executable.as_str(),
        add_cmd.when.as_str(),
        &add_cmd.name,
        &add_cmd.description,
        add_cmd.exec_if_missed,
        home,
    )
}

/// Begins `status`: the control plane is asked for the status of the task's trigger unit.
pub fn status_command(name_cmd: &NameCommand) -> (start: (Workflow, Action))
    ensures
        start.0@ == unit_workflow(
            Stage::Calling(Operation::Status),
            canonical_name(name_cmd.name@),
            Seq::empty(),
            false,
        ),
        start.1@ == start.0@.call(Operation::Status),
{
    single_call(Operation::Status, name_cmd.name.as_str())
}

/// Begins `list`: the control plane is asked for the timers of the user.
pub fn list_timers_command() -> (start: (Workflow, Action))
    ensures
        start.0@ == unit_workflow(
            Stage::Calling(Operation::List),
            Seq::empty(),
            Seq::empty(),
            false,
        ),
        start.1@ == start.0@.call(Operation::List),
{
    let workflow = Workflow {
        stage: Stage::Calling(Operation::List),
        timer: named_timer(String::new()),
        home: String::new(),
        request: String::new(),
        command: String::new(),
        cascade: false,
    };
    let action = workflow.call(Operation::List);
    (workflow, action)
}

/// Begins `enable`: the control plane is asked to enable the task's trigger unit.
pub fn enable_timer_command(name_cmd: &NameCommand) -> (start: (Workflow, Action))
    ensures
        start.0@ == unit_workflow(
            Stage::Calling(Operation::Enable),
            canonical_name(name_cmd.name@),
            Seq::empty(),
            false,
        ),
        start.1@ == start.0@.call(Operation::Enable),
{
    single_call(Operation::Enable, name_cmd.name.as_str())
}

/// Begins `disable`: the control plane is asked to disable the task's trigger unit.
pub fn disable_timer_command(name_cmd: &NameCommand) -> (start: (Workflow, Action))
    ensures
        start.0@ == unit_workflow(
            Stage::Calling(Operation::Disable),
            canonical_name(name_cmd.name@),
            Seq::empty(),
            false,
        ),
        start.1@ == start.0@.call(Operation::Disable),
{
    single_call(Operation::Disable, name_cmd.name.as_str())
}

/// Begins `start`: the control plane is asked to start the task's trigger unit.
pub fn start_timer_command(name_cmd: &NameCommand) -> (start: (Workflow, Action))
    ensures
        start.0@ == unit_workflow(
            Stage::Calling(Operation::Start),
            canonical_name(name_cmd.name@),
            Seq::empty(),
            false,
        ),
        start.1@ == start.0@.call(Operation::Start),
{
    single_call(Operation::Start, name_cmd.name.as_str())
}

/// Begins `stop`: the control plane is asked to stop the task's trigger unit.
pub fn stop_timer_command(name_cmd: &NameCommand) -> (start: (Workflow, Action))
    ensures
        start.0@ == unit_workflow(
            Stage::Calling(Operation::Stop),
            canonical_name(name_cmd.name@),
            Seq::empty(),
            false,
        ),
        start.1@ == start.0@.call(Operation::Stop),
{
    single_call(Operation::Stop, name_cmd.name.as_str())
}

/// Begins `remove`: the trigger unit is disabled before anything is deleted.
pub fn remove_timer_command(name_cmd: &RemoveCommand, home: &str) -> (start: (Workflow, Action))
    ensures
        start.0@ == unit_workflow(
            Stage::Disabling,
            canonical_name(name_cmd.name@),
            home@,
            name_cmd.remove_service,
        ),
        start.1@ == start.0@.call(Operation::Disable),
{
    let workflow = Workflow {
        stage: Stage::Disabling,
        timer: named_timer(add_dot_timer_extension(name_cmd.name.as_str())),
        home: home.to_owned(),
        request: String::new(),
        command: String::new(),
        cascade: name_cmd.remove_service,
    };
    let action = workflow.call(Operation::Disable);
    (workflow, action)
}

/// What `begin_command` gives for `command`: the start of the command's own function.
pub open spec fn begins(start: (Workflow, Action), command: Commands, home: Seq<char>) -> bool {
    match command {
        Commands::Add(c) => start.0@ == add_workflow(
            c.executable@,
            c.when@,
            option_view(c.name),
            option_view(c.description),
            c.exec_if_missed,
            home,
        ) && start.1@ == (ActionView::ProbeFile { path: start.0@.command }),
        Commands::Enable(c) => begins_call(start, Operation::Enable, c.name@),
        Commands::Disable(c) => begins_call(start, Operation::Disable, c.name@),
        Commands::Start(c) => begins_call(start, Operation::Start, c.name@),
        Commands::Stop(c) => begins_call(start, Operation::Stop, c.name@),
        Commands::Status(c) => begins_call(start, Operation::Status, c.name@),
        Commands::Remove(c) => start.0@ == unit_workflow(
            Stage::Disabling,
            canonical_name(c.name@),
            home,
            c.remove_service,
        ) && start.1@ == start.0@.call(Operation::Disable),
        Commands::List {  } => start.0@ == unit_workflow(
            Stage::Calling(Operation::List),
            Seq::empty(),
            Seq::empty(),
            false,
        ) && start.1@ == start.0@.call(Operation::List),
    }
}

/// Whether `start` is the start of the one request `operation` about the task `name`.
pub open spec fn begins_call(
    start: (Workflow, Action),
    operation: Operation,
    name: Seq<char>,
) -> bool {
    start.0@ == unit_workflow(
        Stage::Calling(operation),
        canonical_name(name),
        Seq::empty(),
        false,
    ) && start.1@ == start.0@.call(operation)
}

/// Begins the command that the user gave.
pub fn begin_command(command: &Commands, home: &str) -> (start: (Workflow, Action))
    ensures
        begins(start, *command, home@),
{
    match command {
        Commands::Add(add_cmd) => add_timer_command(add_cmd, home),
        Commands::Enable(name_cmd) => enable_timer_command(name_cmd),
        Commands::Disable(name_cmd) => disable_timer_command(name_cmd),
        Commands::Start(name_cmd) => start_timer_command(name_cmd),
        Commands::Stop(name_cmd) => stop_timer_command(name_cmd),
        Commands::Remove(name_cmd) => remove_timer_command(name_cmd, home),
        Commands::Status(name_cmd) => status_command(name_cmd),
        Commands::List {  } => list_timers_command(),
    }
}

/// Begins what the user typed: the command, if there is one.
pub fn begin(cli: &Cli, home: &str) -> (start: Option<(Workflow, Action)>)
    ensures
        match start {
            Some(begun) => cli.command is Some && begins(begun, cli.command->0, home@),
            None => cli.command is None,
        },
{
    match &cli.command {
        Some(command) => Some(begin_command(command, home)),
        None => None,
    }
}

} // verus!
