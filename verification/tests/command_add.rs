use user_timers::command_add::{add_timer, AddArguments};
use user_timers::error::TimerError;
use user_timers::gateway::Action;
use user_timers::subcommand::Stage;

fn arguments(executable: Option<&str>, schedule: Option<&str>) -> AddArguments {
    AddArguments {
        executable: executable.map(|s| s.to_string()),
        schedule: schedule.map(|s| s.to_string()),
        description: None,
        name: None,
        exec_if_missed: false,
    }
}

#[test]
fn add_needs_the_command_line() {
    assert_eq!(
        add_timer(&arguments(None, Some("daily")), "/home/user"),
        Err(TimerError::MissingArgument { name: "exec".to_string() })
    );
    assert_eq!(
        add_timer(&arguments(None, None), "/home/user"),
        Err(TimerError::MissingArgument { name: "exec".to_string() })
    );
}

#[test]
fn add_needs_the_schedule() {
    assert_eq!(
        add_timer(&arguments(Some("~/bin/backup.sh"), None), "/home/user"),
        Err(TimerError::MissingArgument { name: "schedule".to_string() })
    );
}

#[test]
fn add_begins_with_the_probe_of_the_executable() {
    let (workflow, first) =
        add_timer(&arguments(Some("~/bin/backup.sh --all"), Some("weekly")), "/home/user").unwrap();
    assert_eq!(first, Action::ProbeFile { path: "/home/user/bin/backup.sh".to_string() });
    assert_eq!(workflow.stage, Stage::ProbingExecutable);
    assert_eq!(workflow.timer.name, "backup.timer");
    assert_eq!(workflow.timer.description, "Execute ~/bin/backup.sh --all");
    assert_eq!(workflow.timer.executable, "/home/user/bin/backup.sh --all");
    assert_eq!(workflow.timer.schedule, "weekly");
    assert!(!workflow.timer.exec_if_missed);
}

#[test]
fn add_takes_name_and_description_where_given() {
    let mut given = arguments(Some("/usr/bin/true"), Some("hourly"));
    given.name = Some("heartbeat".to_string());
    given.description = Some("Beat".to_string());
    given.exec_if_missed = true;
    let (workflow, first) = add_timer(&given, "/home/user").unwrap();
    assert_eq!(first, Action::ProbeFile { path: "/usr/bin/true".to_string() });
    assert_eq!(workflow.timer.name, "heartbeat.timer");
    assert_eq!(workflow.timer.description, "Beat");
    assert!(workflow.timer.exec_if_missed);
}
