//! What can go wrong, and how it is told to the user.

use vstd::prelude::*;
use vstd::string::*;

verus! {

/// One of the two unit files of a task.
#[derive(Clone, Copy, Debug, PartialEq, Eq, Structural)]
pub enum Artifact {
    /// The execution unit: what to run.
    Service,
    /// The trigger unit: when to run it.
    Timer,
}

/// A request that the control plane understands.
#[derive(Clone, Copy, Debug, PartialEq, Eq, Structural)]
pub enum Operation {
    /// Read the unit files again.
    Reload,
    /// Enable a unit.
    Enable,
    /// Disable a unit.
    Disable,
    /// Start a unit.
    Start,
    /// Stop a unit.
    Stop,
    /// Tell the status of a unit.
    Status,
    /// List the timers.
    List,
}

/// A failure of a command.
#[derive(Debug, PartialEq, Eq)]
pub enum TimerError {
    /// An argument that a command needs was not given.
    MissingArgument { name: String },
    /// The command line names no file and no command on the search path.
    InvalidExecutable { executable: String },
    /// The validator turned the schedule down.
    InvalidSchedule { schedule: String },
    /// A unit file could not be written.
    CreateFailed { artifact: Artifact, reason: String },
    /// A unit file could not be deleted.
    RemoveFailed { artifact: Artifact, reason: String },
    /// The control plane reported a failure.
    ControlFailed { operation: Operation, unit: String },
}

/// `TimerError` over sequences of characters.
pub enum TimerErrorView {
    MissingArgument { name: Seq<char> },
    InvalidExecutable { executable: Seq<char> },
    InvalidSchedule { schedule: Seq<char> },
    CreateFailed { artifact: Artifact, reason: Seq<char> },
    RemoveFailed { artifact: Artifact, reason: Seq<char> },
    ControlFailed { operation: Operation, unit: Seq<char> },
}

impl View for TimerError {
    type V = TimerErrorView;

    open spec fn view(&self) -> TimerErrorView {
        match *self {
            TimerError::MissingArgument { name } => TimerErrorView::MissingArgument { name: name@ },
            TimerError::InvalidExecutable { executable } => TimerErrorView::InvalidExecutable {
                executable: executable@,
            },
            TimerError::InvalidSchedule { schedule } => TimerErrorView::InvalidSchedule {
                schedule: schedule@,
            },
            TimerError::CreateFailed { artifact, reason } => TimerErrorView::CreateFailed {
                artifact,
                reason: reason@,
            },
            TimerError::RemoveFailed { artifact, reason } => TimerErrorView::RemoveFailed {
                artifact,
                reason: reason@,
            },
            TimerError::ControlFailed { operation, unit } => TimerErrorView::ControlFailed {
                operation,
                unit: unit@,
            },
        }
    }
}

/// The word for a unit file in a message.
pub open spec fn artifact_word(artifact: Artifact) -> Seq<char> {
    match artifact {
        Artifact::Service => "service"@,
        Artifact::Timer => "timer"@,
    }
}

/// What a failed request to the control plane is called in a message. The unit's name
/// follows where the request has one.
pub open spec fn operation_phrase(operation: Operation) -> Seq<char> {
    match operation {
        Operation::Reload => "reload systemd daemon"@,
        Operation::Enable => "enable timer "@,
        Operation::Disable => "disable timer "@,
        Operation::Start => "start timer "@,
        Operation::Stop => "stop timer "@,
        Operation::Status => "get status for timer "@,
        Operation::List => "list timers"@,
    }
}

/// Whether a request to the control plane is about one unit.
pub open spec fn names_unit(operation: Operation) -> bool {
    operation != Operation::Reload && operation != Operation::List
}

/// Whether what the control plane says in answer to a request is what the user asked for.
pub open spec fn shows_answer(operation: Operation) -> bool {
    operation == Operation::Status || operation == Operation::List
}

/// The line that tells the user of the failure `e`.
pub open spec fn message_text(e: TimerErrorView) -> Seq<char> {
    match e {
        TimerErrorView::MissingArgument { name } => "Error: Missing required argument '"@ + name
            + "'"@,
        TimerErrorView::InvalidExecutable { executable } =>
            "Error: Executable path does not point to a valid file: "@ + executable,
        TimerErrorView::InvalidSchedule { schedule } => "Error: Invalid schedule format: "@
            + schedule,
        TimerErrorView::CreateFailed { artifact, reason } => "Error: Failed to create "@
            + artifact_word(artifact) + " file: "@ + reason,
        TimerErrorView::RemoveFailed { artifact, reason } => "Error: Failed to remove "@
            + artifact_word(artifact) + " file: "@ + reason,
        TimerErrorView::ControlFailed { operation, unit } => "Error: Failed to "@
            + operation_phrase(operation) + if names_unit(operation) {
            unit
        } else {
            Seq::empty()
        },
    }
}

impl Artifact {
    /// The word for the unit file in a message.
    pub fn word(self) -> (w: &'static str)
        ensures
            w@ == artifact_word(self),
    {
        match self {
            Artifact::Service => "service",
            Artifact::Timer => "timer",
        }
    }
}

impl Operation {
    /// What the failed request is called in a message.
    pub fn phrase(self) -> (p: &'static str)
        ensures
            p@ == operation_phrase(self),
    {
        match self {
            Operation::Reload => "reload systemd daemon",
            Operation::Enable => "enable timer ",
            Operation::Disable => "disable timer ",
            Operation::Start => "start timer ",
            Operation::Stop => "stop timer ",
            Operation::Status => "get status for timer ",
            Operation::List => "list timers",
        }
    }

    /// Whether the request is about one unit.
    pub fn has_unit(self) -> (b: bool)
        ensures
            b == names_unit(self),
    {
        match self {
            Operation::Reload => false,
            Operation::List => false,
            _ => true,
        }
    }

    /// Whether what the control plane says in answer to the request is what the user asked
    /// for.
    pub fn has_answer(self) -> (b: bool)
        ensures
            b == shows_answer(self),
    {
        match self {
            Operation::Status => true,
            Operation::List => true,
            _ => false,
        }
    }
}

impl TimerError {
    /// The line that tells the user of the failure.
    pub fn message(&self) -> (m: String)
        ensures
            m@ == message_text(self@),
    {
        match self {
            TimerError::MissingArgument { name } => {
                let mut m = "Error: Missing required argument '".to_owned();
                m.append(name.as_str());
                m.append("'");
                m
            },
            TimerError::InvalidExecutable { executable } => {
                let mut m = "Error: Executable path does not point to a valid file: ".to_owned();
                m.append(executable.as_str());
                m
            },
            TimerError::InvalidSchedule { schedule } => {
                let mut m = "Error: Invalid schedule format: ".to_owned();
                m.append(schedule.as_str());
                m
            },
            TimerError::CreateFailed { artifact, reason } => {
                let mut m = "Error: Failed to create ".to_owned();
                m.append(artifact.word());
                m.append(" file: ");
                m.append(reason.as_str());
                m
            },
            TimerError::RemoveFailed { artifact, reason } => {
                let mut m = "Error: Failed to remove ".to_owned();
                m.append(artifact.word());
                m.append(" file: ");
                m.append(reason.as_str());
                m
            },
            TimerError::ControlFailed { operation, unit } => {
                let mut m = "Error: Failed to ".to_owned();
                m.append(operation.phrase());
                if operation.has_unit() {
                    m.append(unit.as_str());
                }
                assert(m@ =~= message_text(self@));
                m
            },
        }
    }
}

impl Clone for TimerError {
    fn clone(&self) -> (e: TimerError)
        ensures
            e == *self,
    {
        match self {
            TimerError::MissingArgument { name } => TimerError::MissingArgument {
                name: name.clone(),
            },
            TimerError::InvalidExecutable { executable } => TimerError::InvalidExecutable {
                executable: executable.clone(),
            },
            TimerError::InvalidSchedule { schedule } => TimerError::InvalidSchedule {
                schedule: schedule.clone(),
            },
            TimerError::CreateFailed { artifact, reason } => TimerError::CreateFailed {
                artifact: *artifact,
                reason: reason.clone(),
            },
            TimerError::RemoveFailed { artifact, reason } => TimerError::RemoveFailed {
                artifact: *artifact,
                reason: reason.clone(),
            },
            TimerError::ControlFailed { operation, unit } => TimerError::ControlFailed {
                operation: *operation,
                unit: unit.clone(),
            },
        }
    }
}

} // verus!
