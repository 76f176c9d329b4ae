use user_timers::unitfile::find_referenced_unit;

fn unit_by_std(contents: &str) -> Option<String> {
    contents
        .lines()
        .map(|l| l.trim())
        .filter(|l| !l.starts_with('#') && !l.starts_with(';'))
        .find_map(|l| {
            if let Some(rest) = l.strip_prefix("Unit=") {
                let val = rest.split(|c| c == '#' || c == ';').next().unwrap_or("").trim();
                if val.is_empty() {
                    None
                } else {
                    Some(val.to_string())
                }
            } else {
                None
            }
        })
}

#[test]
fn named_unit_is_found() {
    let text = "[Unit]\nDescription=x\n\n[Timer]\nOnCalendar=daily\nUnit=custom-job.service\n\n[Install]\nWantedBy=timers.target\n";
    assert_eq!(find_referenced_unit(text), Some("custom-job.service".to_string()));
}

#[test]
fn text_without_unit_names_none() {
    let text = "[Unit]\nDescription=x\n\n[Timer]\nOnCalendar=daily\nPersistent=true\n\n[Install]\nWantedBy=timers.target\n";
    assert_eq!(find_referenced_unit(text), None);
    assert_eq!(find_referenced_unit(""), None);
}

#[test]
fn white_space_round_line_and_name_does_not_count() {
    assert_eq!(find_referenced_unit("  Unit=  a.service  \r\n"), Some("a.service".to_string()));
    assert_eq!(find_referenced_unit("\tUnit=a b.service"), Some("a b.service".to_string()));
}

#[test]
fn comment_ends_the_name() {
    assert_eq!(find_referenced_unit("Unit=a.service # mine"), Some("a.service".to_string()));
    assert_eq!(find_referenced_unit("Unit=a.service;b"), Some("a.service".to_string()));
}

#[test]
fn commented_lines_name_nothing() {
    assert_eq!(find_referenced_unit("#Unit=a.service\n;Unit=b.service\n"), None);
    assert_eq!(
        find_referenced_unit("# Unit=a.service\nUnit=c.service\n"),
        Some("c.service".to_string())
    );
}

#[test]
fn empty_name_is_passed_over() {
    assert_eq!(find_referenced_unit("Unit=\nUnit=  # none\nUnit=z.service"), Some("z.service".to_string()));
    assert_eq!(find_referenced_unit("Unit="), None);
}

#[test]
fn first_name_wins() {
    assert_eq!(find_referenced_unit("Unit=a.service\nUnit=b.service"), Some("a.service".to_string()));
}

#[test]
fn key_must_begin_the_line() {
    assert_eq!(find_referenced_unit("TheUnit=a.service"), None);
    assert_eq!(find_referenced_unit("Unit =a.service"), None);
    assert_eq!(find_referenced_unit("unit=a.service"), None);
}

#[test]
fn reading_agrees_with_the_standard_string_rules() {
    let inputs = [
        "",
        "\n",
        "\n\n",
        "Unit=a",
        "Unit=a\n",
        "\nUnit=a",
        "Unit=a\r\nUnit=b",
        "Unit=a\rUnit=b",
        "x\rUnit=b\n",
        " \u{a0}Unit=\u{2003}a\u{3000}\n",
        "Unit=#a",
        "Unit=;a\nUnit=b",
        "Unit= a # b ; c",
        "Unit=Unit=a",
        "Unit",
        "Unit=\n",
        "[Timer]\nUnit=a.service\nUnit=b.service\n",
        "   # Unit=a\n\t; Unit=b\n  Unit=c  ",
        "Unit=\u{e9}t\u{e9}.service",
        "U\nnit=a",
        "Unit=a\u{b}b",
        "Unit=a\u{c}\n",
    ];
    for input in inputs {
        assert_eq!(find_referenced_unit(input), unit_by_std(input), "input {:?}", input);
    }
}
