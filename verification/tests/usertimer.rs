use user_timers::gateway::Action;
use user_timers::usertimer::{systemd_dir, UserTimer};

fn backup(exec_if_missed: bool) -> UserTimer {
    UserTimer {
        executable: "/home/user/bin/backup.sh --all".to_string(),
        description: "Nightly backup".to_string(),
        schedule: "*-*-* 02:00:00".to_string(),
        name: "backup.timer".to_string(),
        exec_if_missed,
    }
}

#[test]
fn unit_directory_is_under_the_home_directory() {
    assert_eq!(systemd_dir("/home/user"), "/home/user/.config/systemd/user/");
    assert_eq!(systemd_dir(""), "/.config/systemd/user/");
}

#[test]
fn both_units_share_the_base_name() {
    let timer = backup(true);
    assert_eq!(timer.service_unit_name(), "backup.service");
    assert_eq!(timer.timer_unit_name(), "backup.timer");
}

#[test]
fn unit_names_do_not_depend_on_the_suffix_of_the_name() {
    let mut timer = backup(true);
    timer.name = "backup".to_string();
    assert_eq!(timer.service_unit_name(), "backup.service");
    assert_eq!(timer.timer_unit_name(), "backup.timer");
    timer.name = "backup.timer.timer".to_string();
    assert_eq!(timer.service_unit_name(), "backup.timer.service");
    assert_eq!(timer.timer_unit_name(), "backup.timer.timer");
}

#[test]
fn paths_are_in_the_unit_directory() {
    let timer = backup(true);
    assert_eq!(
        timer.service_file_path("/home/user"),
        "/home/user/.config/systemd/user/backup.service"
    );
    assert_eq!(timer.timer_file_path("/home/user"), "/home/user/.config/systemd/user/backup.timer");
}

#[test]
fn paths_stay_in_the_unit_directory_for_a_name_that_looks_absolute() {
    let mut timer = backup(true);
    timer.name = "/etc/passwd".to_string();
    assert_eq!(
        timer.service_file_path("/home/user"),
        "/home/user/.config/systemd/user//etc/passwd.service"
    );
}

#[test]
fn service_text_has_three_attributes() {
    assert_eq!(
        backup(true).service_file_contents(),
        "[Unit]\nDescription=Nightly backup\n\n[Service]\nType=oneshot\nExecStart=/home/user/bin/backup.sh --all\n"
    );
}

#[test]
fn timer_text_with_catch_up() {
    assert_eq!(
        backup(true).timer_file_contents(),
        "[Unit]\nDescription=Nightly backup\n\n[Timer]\nOnCalendar=*-*-* 02:00:00\nPersistent=true\n\n[Install]\nWantedBy=timers.target\n"
    );
}

#[test]
fn timer_text_without_catch_up() {
    assert_eq!(
        backup(false).timer_file_contents(),
        "[Unit]\nDescription=Nightly backup\n\n[Timer]\nOnCalendar=*-*-* 02:00:00\n\n\n[Install]\nWantedBy=timers.target\n"
    );
}

#[test]
fn catch_up_attribute_is_there_only_when_asked_for() {
    let with = backup(true).timer_file_contents();
    let without = backup(false).timer_file_contents();
    assert!(with.lines().any(|line| line == "Persistent=true"));
    assert!(!without.contains("Persistent"));
    assert_eq!(with.replacen("Persistent=true", "", 1), without);
}

#[test]
fn texts_of_empty_task() {
    let timer = UserTimer {
        executable: String::new(),
        description: String::new(),
        schedule: String::new(),
        name: String::new(),
        exec_if_missed: false,
    };
    assert_eq!(
        timer.service_file_contents(),
        "[Unit]\nDescription=\n\n[Service]\nType=oneshot\nExecStart=\n"
    );
    assert_eq!(
        timer.timer_file_contents(),
        "[Unit]\nDescription=\n\n[Timer]\nOnCalendar=\n\n\n[Install]\nWantedBy=timers.target\n"
    );
    assert_eq!(timer.service_unit_name(), ".service");
    assert_eq!(timer.timer_unit_name(), ".timer");
}

#[test]
fn rendering_twice_gives_the_same_bytes() {
    let a = backup(true);
    let b = a.clone();
    assert_eq!(a, b);
    assert_eq!(a.service_file_contents().as_bytes(), b.service_file_contents().as_bytes());
    assert_eq!(a.timer_file_contents().as_bytes(), b.timer_file_contents().as_bytes());
    assert_eq!(a.timer_file_contents(), a.timer_file_contents());
    assert_eq!(a.service_file_contents(), a.service_file_contents());
}

#[test]
fn texts_keep_what_is_not_ascii() {
    let mut timer = backup(true);
    timer.description = "Sauvegarde quotidienne \u{e9}t\u{e9}".to_string();
    assert!(timer
        .service_file_contents()
        .starts_with("[Unit]\nDescription=Sauvegarde quotidienne \u{e9}t\u{e9}\n"));
}

#[test]
fn creating_a_unit_is_writing_its_text_to_its_path() {
    let timer = backup(true);
    assert_eq!(
        timer.create_service_file("/home/user"),
        Action::WriteFile {
            path: timer.service_file_path("/home/user"),
            contents: timer.service_file_contents(),
        }
    );
    assert_eq!(
        timer.create_timer_file("/home/user"),
        Action::WriteFile {
            path: timer.timer_file_path("/home/user"),
            contents: timer.timer_file_contents(),
        }
    );
}
