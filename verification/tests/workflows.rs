use user_timers::cli::{AddCommand, Cli, Commands, NameCommand, RemoveCommand};
use user_timers::error::{Artifact, Operation, TimerError};
use user_timers::gateway::{Action, Event};
use user_timers::subcommand::{
    add_timer_command, begin, begin_command, disable_timer_command, enable_timer_command,
    list_timers_command, remove_timer_command, start_timer_command, status_command,
    stop_timer_command, Stage, Workflow,
};

const HOME: &str = "/home/user";
const DIR: &str = "/home/user/.config/systemd/user/";

fn ok() -> Event {
    Event::Succeeded
}

fn no(reason: &str) -> Event {
    Event::Failed { reason: reason.to_string() }
}

fn gave(text: &str) -> Event {
    Event::Produced { text: text.to_string() }
}

fn control(operation: Operation, unit: &str) -> Action {
    Action::Control { operation, unit: unit.to_string() }
}

fn failed(operation: Operation, unit: &str) -> Action {
    Action::Abort { error: TimerError::ControlFailed { operation, unit: unit.to_string() } }
}

fn remove_file(path: &str) -> Action {
    Action::RemoveFile { path: path.to_string() }
}

fn run(start: (Workflow, Action), events: Vec<Event>) -> (Workflow, Vec<Action>) {
    let (mut workflow, first) = start;
    let mut actions = vec![first];
    for event in events {
        actions.push(workflow.advance(event));
    }
    (workflow, actions)
}

fn backup() -> AddCommand {
    AddCommand {
        executable: "~/bin/backup.sh".to_string(),
        when: "daily".to_string(),
        name: None,
        description: None,
        exec_if_missed: true,
        verbose: false,
    }
}

fn named(name: &str) -> NameCommand {
    NameCommand { name: name.to_string(), verbose: false }
}

fn removal(name: &str, remove_service: bool) -> RemoveCommand {
    RemoveCommand { name: name.to_string(), verbose: false, remove_service }
}

fn service_text() -> String {
    "[Unit]\nDescription=Execute ~/bin/backup.sh\n\n[Service]\nType=oneshot\nExecStart=/home/user/bin/backup.sh\n".to_string()
}

fn timer_text() -> String {
    "[Unit]\nDescription=Execute ~/bin/backup.sh\n\n[Timer]\nOnCalendar=daily\nPersistent=true\n\n[Install]\nWantedBy=timers.target\n".to_string()
}

#[test]
fn add_resolves_the_task_from_the_command_line() {
    let (workflow, first) = add_timer_command(&backup(), HOME);
    assert_eq!(workflow.stage, Stage::ProbingExecutable);
    assert_eq!(workflow.timer.name, "backup.timer");
    assert_eq!(workflow.timer.description, "Execute ~/bin/backup.sh");
    assert_eq!(workflow.timer.executable, "/home/user/bin/backup.sh");
    assert_eq!(workflow.timer.schedule, "daily");
    assert!(workflow.timer.exec_if_missed);
    assert_eq!(workflow.home, HOME);
    assert_eq!(workflow.request, "~/bin/backup.sh");
    assert_eq!(workflow.command, "/home/user/bin/backup.sh");
    assert_eq!(first, Action::ProbeFile { path: "/home/user/bin/backup.sh".to_string() });
}

#[test]
fn add_writes_both_units_then_reloads_enables_and_starts() {
    let (workflow, actions) =
        run(add_timer_command(&backup(), HOME), vec![ok(), ok(), ok(), ok(), ok(), ok(), ok()]);
    assert_eq!(
        actions,
        vec![
            Action::ProbeFile { path: "/home/user/bin/backup.sh".to_string() },
            Action::CheckSchedule { schedule: "daily".to_string() },
            Action::WriteFile { path: format!("{}backup.service", DIR), contents: service_text() },
            Action::WriteFile { path: format!("{}backup.timer", DIR), contents: timer_text() },
            control(Operation::Reload, ""),
            control(Operation::Enable, "backup.timer"),
            control(Operation::Start, "backup.timer"),
            Action::Done,
        ]
    );
    assert!(workflow.is_finished());
}

#[test]
fn add_takes_a_command_from_the_search_path() {
    let mut add_cmd = backup();
    add_cmd.executable = "rsync -a /src /dst".to_string();
    add_cmd.name = Some("mirror".to_string());
    add_cmd.description = Some("Mirror the sources".to_string());
    add_cmd.exec_if_missed = false;
    let (workflow, actions) = run(add_timer_command(&add_cmd, HOME), vec![no(""), ok(), ok()]);
    assert_eq!(
        actions,
        vec![
            Action::ProbeFile { path: "rsync".to_string() },
            Action::FindCommand { command: "rsync".to_string() },
            Action::CheckSchedule { schedule: "daily".to_string() },
            Action::WriteFile {
                path: format!("{}mirror.service", DIR),
                contents: "[Unit]\nDescription=Mirror the sources\n\n[Service]\nType=oneshot\nExecStart=rsync -a /src /dst\n".to_string(),
            },
        ]
    );
    assert_eq!(workflow.stage, Stage::WritingService);
    assert_eq!(workflow.timer.name, "mirror.timer");
}

#[test]
fn add_with_unknown_executable_stops_before_anything_else() {
    let (workflow, actions) =
        run(add_timer_command(&backup(), HOME), vec![no(""), no(""), ok(), ok()]);
    assert_eq!(
        actions,
        vec![
            Action::ProbeFile { path: "/home/user/bin/backup.sh".to_string() },
            Action::FindCommand { command: "/home/user/bin/backup.sh".to_string() },
            Action::Abort {
                error: TimerError::InvalidExecutable { executable: "~/bin/backup.sh".to_string() }
            },
            Action::Done,
            Action::Done,
        ]
    );
    assert!(workflow.is_finished());
}

#[test]
fn add_with_rejected_schedule_writes_nothing_and_calls_nothing() {
    let mut add_cmd = backup();
    add_cmd.when = "every now and then".to_string();
    let (workflow, actions) =
        run(add_timer_command(&add_cmd, HOME), vec![ok(), no(""), ok(), ok(), ok()]);
    assert_eq!(
        actions,
        vec![
            Action::ProbeFile { path: "/home/user/bin/backup.sh".to_string() },
            Action::CheckSchedule { schedule: "every now and then".to_string() },
            Action::Abort {
                error: TimerError::InvalidSchedule { schedule: "every now and then".to_string() }
            },
            Action::Done,
            Action::Done,
            Action::Done,
        ]
    );
    assert!(workflow.is_finished());
    for action in &actions {
        assert!(!matches!(
            action,
            Action::WriteFile { .. } | Action::RemoveFile { .. } | Action::Control { .. }
        ));
    }
    match &actions[2] {
        Action::Abort { error } => assert!(error.message().contains("every now and then")),
        other => panic!("unexpected {:?}", other),
    }
}

#[test]
fn add_stops_when_the_service_file_cannot_be_written() {
    let (workflow, actions) =
        run(add_timer_command(&backup(), HOME), vec![ok(), ok(), no("Permission denied")]);
    assert_eq!(
        actions[3],
        Action::Abort {
            error: TimerError::CreateFailed {
                artifact: Artifact::Service,
                reason: "Permission denied".to_string()
            }
        }
    );
    assert!(workflow.is_finished());
    assert_eq!(actions.iter().filter(|a| matches!(a, Action::WriteFile { .. })).count(), 1);
}

#[test]
fn add_stops_when_the_timer_file_cannot_be_written() {
    let (workflow, actions) =
        run(add_timer_command(&backup(), HOME), vec![ok(), ok(), ok(), no("disk full")]);
    assert_eq!(
        actions[4],
        Action::Abort {
            error: TimerError::CreateFailed {
                artifact: Artifact::Timer,
                reason: "disk full".to_string()
            }
        }
    );
    assert!(workflow.is_finished());
}

#[test]
fn add_stops_when_the_control_plane_fails() {
    let (_, actions) = run(add_timer_command(&backup(), HOME), vec![ok(), ok(), ok(), ok(), no("")]);
    assert_eq!(actions[5], failed(Operation::Reload, ""));
    let (_, actions) =
        run(add_timer_command(&backup(), HOME), vec![ok(), ok(), ok(), ok(), ok(), no("")]);
    assert_eq!(actions[6], failed(Operation::Enable, "backup.timer"));
    let (workflow, actions) =
        run(add_timer_command(&backup(), HOME), vec![ok(), ok(), ok(), ok(), ok(), ok(), no("")]);
    assert_eq!(actions[7], failed(Operation::Start, "backup.timer"));
    assert!(workflow.is_finished());
}

#[test]
fn add_keeps_a_given_name_and_its_suffix_single() {
    let mut add_cmd = backup();
    add_cmd.name = Some("nightly.timer".to_string());
    let (workflow, _) = add_timer_command(&add_cmd, HOME);
    assert_eq!(workflow.timer.name, "nightly.timer");
    assert_eq!(workflow.timer.timer_unit_name(), "nightly.timer");
    assert_eq!(workflow.timer.service_unit_name(), "nightly.service");
}

#[test]
fn enable_is_one_request() {
    let (workflow, actions) = run(enable_timer_command(&named("backup_sh")), vec![ok()]);
    assert_eq!(actions, vec![control(Operation::Enable, "backup_sh.timer"), Action::Done]);
    assert!(workflow.is_finished());
}

#[test]
fn enable_reports_a_failure() {
    let (workflow, actions) = run(enable_timer_command(&named("backup_sh.timer")), vec![no("")]);
    assert_eq!(
        actions,
        vec![control(Operation::Enable, "backup_sh.timer"), failed(Operation::Enable, "backup_sh.timer")]
    );
    assert!(workflow.is_finished());
}

#[test]
fn disable_start_and_stop_are_one_request_each() {
    let (_, actions) = run(disable_timer_command(&named("a")), vec![ok()]);
    assert_eq!(actions, vec![control(Operation::Disable, "a.timer"), Action::Done]);
    let (_, actions) = run(start_timer_command(&named("a")), vec![ok()]);
    assert_eq!(actions, vec![control(Operation::Start, "a.timer"), Action::Done]);
    let (_, actions) = run(stop_timer_command(&named("a.timer")), vec![ok()]);
    assert_eq!(actions, vec![control(Operation::Stop, "a.timer"), Action::Done]);
    let (_, actions) = run(disable_timer_command(&named("a")), vec![no("")]);
    assert_eq!(actions[1], failed(Operation::Disable, "a.timer"));
    let (_, actions) = run(start_timer_command(&named("a")), vec![no("")]);
    assert_eq!(actions[1], failed(Operation::Start, "a.timer"));
    let (_, actions) = run(stop_timer_command(&named("a")), vec![no("")]);
    assert_eq!(actions[1], failed(Operation::Stop, "a.timer"));
}

#[test]
fn status_shows_what_the_control_plane_said() {
    let (workflow, actions) =
        run(status_command(&named("backup_sh")), vec![gave("active (waiting)\n"), ok()]);
    assert_eq!(
        actions,
        vec![
            control(Operation::Status, "backup_sh.timer"),
            Action::Print { text: "active (waiting)\n".to_string() },
            Action::Done,
        ]
    );
    assert!(workflow.is_finished());
}

#[test]
fn status_reports_a_failure() {
    let (_, actions) = run(status_command(&named("backup_sh")), vec![no("")]);
    assert_eq!(actions[1], failed(Operation::Status, "backup_sh.timer"));
}

#[test]
fn list_shows_the_timers() {
    let (workflow, actions) = run(list_timers_command(), vec![gave("NEXT LEFT\n"), ok()]);
    assert_eq!(
        actions,
        vec![
            control(Operation::List, ""),
            Action::Print { text: "NEXT LEFT\n".to_string() },
            Action::Done,
        ]
    );
    assert!(workflow.is_finished());
    let (_, actions) = run(list_timers_command(), vec![no("")]);
    assert_eq!(actions[1], failed(Operation::List, ""));
}

#[test]
fn remove_disables_then_deletes_the_trigger_then_reloads() {
    let (workflow, actions) =
        run(remove_timer_command(&removal("backup_sh", false), HOME), vec![ok(), ok(), ok()]);
    assert_eq!(
        actions,
        vec![
            control(Operation::Disable, "backup_sh.timer"),
            remove_file("/home/user/.config/systemd/user/backup_sh.timer"),
            control(Operation::Reload, ""),
            Action::Done,
        ]
    );
    assert!(workflow.is_finished());
}

#[test]
fn remove_reloads_even_when_the_trigger_cannot_be_deleted() {
    let (workflow, actions) = run(
        remove_timer_command(&removal("backup_sh", false), HOME),
        vec![ok(), no("No such file or directory"), ok(), ok()],
    );
    assert_eq!(
        actions,
        vec![
            control(Operation::Disable, "backup_sh.timer"),
            remove_file("/home/user/.config/systemd/user/backup_sh.timer"),
            Action::Report {
                error: TimerError::RemoveFailed {
                    artifact: Artifact::Timer,
                    reason: "No such file or directory".to_string()
                }
            },
            control(Operation::Reload, ""),
            Action::Done,
        ]
    );
    assert!(workflow.is_finished());
    assert!(!actions.iter().any(|a| a == &remove_file("/home/user/.config/systemd/user/backup_sh.service")));
}

#[test]
fn remove_stops_when_disabling_fails() {
    let (workflow, actions) =
        run(remove_timer_command(&removal("backup_sh", true), HOME), vec![no(""), ok()]);
    assert_eq!(
        actions,
        vec![
            control(Operation::Disable, "backup_sh.timer"),
            failed(Operation::Disable, "backup_sh.timer"),
            Action::Done,
        ]
    );
    assert!(workflow.is_finished());
}

#[test]
fn remove_with_service_deletes_the_unit_that_the_trigger_names() {
    let trigger = "[Unit]\nDescription=x\n\n[Timer]\nOnCalendar=daily\nUnit=custom-job.service\n";
    let (workflow, actions) = run(
        remove_timer_command(&removal("backup_sh", true), HOME),
        vec![ok(), no("Permission denied"), ok(), gave(trigger), ok(), ok()],
    );
    assert_eq!(
        actions,
        vec![
            control(Operation::Disable, "backup_sh.timer"),
            remove_file("/home/user/.config/systemd/user/backup_sh.timer"),
            Action::Report {
                error: TimerError::RemoveFailed {
                    artifact: Artifact::Timer,
                    reason: "Permission denied".to_string()
                }
            },
            Action::ReadFile { path: "/home/user/.config/systemd/user/backup_sh.timer".to_string() },
            remove_file("/home/user/.config/systemd/user/custom-job.service"),
            control(Operation::Reload, ""),
            Action::Done,
        ]
    );
    assert!(workflow.is_finished());
    assert!(!actions.iter().any(|a| a == &remove_file("/home/user/.config/systemd/user/backup_sh.service")));
}

#[test]
fn remove_with_service_falls_back_to_the_shared_base_name() {
    let gone = vec![ok(), ok(), no("No such file or directory"), ok(), ok()];
    let (_, actions) = run(remove_timer_command(&removal("backup_sh", true), HOME), gone);
    assert_eq!(
        actions,
        vec![
            control(Operation::Disable, "backup_sh.timer"),
            remove_file("/home/user/.config/systemd/user/backup_sh.timer"),
            Action::ReadFile { path: "/home/user/.config/systemd/user/backup_sh.timer".to_string() },
            remove_file("/home/user/.config/systemd/user/backup_sh.service"),
            control(Operation::Reload, ""),
            Action::Done,
        ]
    );
    let silent = vec![ok(), ok(), gave("[Timer]\nOnCalendar=daily\n"), ok(), ok()];
    let (_, actions) = run(remove_timer_command(&removal("backup_sh.timer", true), HOME), silent);
    assert_eq!(actions[3], remove_file("/home/user/.config/systemd/user/backup_sh.service"));
    let empty = vec![ok(), ok(), ok(), ok(), ok()];
    let (_, actions) = run(remove_timer_command(&removal("backup_sh", true), HOME), empty);
    assert_eq!(actions[3], remove_file("/home/user/.config/systemd/user/backup_sh.service"));
}

#[test]
fn remove_with_service_reloads_even_when_the_service_cannot_be_deleted() {
    let (workflow, actions) = run(
        remove_timer_command(&removal("backup_sh", true), HOME),
        vec![ok(), ok(), no(""), no("busy"), ok(), no("")],
    );
    assert_eq!(
        actions[4],
        Action::Report {
            error: TimerError::RemoveFailed { artifact: Artifact::Service, reason: "busy".to_string() }
        }
    );
    assert_eq!(actions[5], control(Operation::Reload, ""));
    assert_eq!(actions[6], failed(Operation::Reload, ""));
    assert!(workflow.is_finished());
}

#[test]
fn finished_workflow_asks_for_nothing() {
    let (mut workflow, _) = enable_timer_command(&named("a"));
    assert_eq!(workflow.advance(ok()), Action::Done);
    assert_eq!(workflow.advance(no("x")), Action::Done);
    assert_eq!(workflow.advance(gave("x")), Action::Done);
    assert!(workflow.is_finished());
}

#[test]
fn commands_begin_as_their_own_functions_do() {
    assert_eq!(begin_command(&Commands::Add(backup()), HOME), add_timer_command(&backup(), HOME));
    assert_eq!(
        begin_command(&Commands::Enable(named("a")), HOME),
        enable_timer_command(&named("a"))
    );
    assert_eq!(
        begin_command(&Commands::Disable(named("a")), HOME),
        disable_timer_command(&named("a"))
    );
    assert_eq!(begin_command(&Commands::Start(named("a")), HOME), start_timer_command(&named("a")));
    assert_eq!(begin_command(&Commands::Stop(named("a")), HOME), stop_timer_command(&named("a")));
    assert_eq!(begin_command(&Commands::Status(named("a")), HOME), status_command(&named("a")));
    assert_eq!(
        begin_command(&Commands::Remove(removal("a", true)), HOME),
        remove_timer_command(&removal("a", true), HOME)
    );
    assert_eq!(begin_command(&Commands::List {}, HOME), list_timers_command());
}

#[test]
fn no_command_begins_nothing() {
    assert_eq!(begin(&Cli { command: None }, HOME), None);
    assert_eq!(
        begin(&Cli { command: Some(Commands::Stop(named("a"))) }, HOME),
        Some(stop_timer_command(&named("a")))
    );
}
