use user_timers::text::{
    chars_of, ends_with, range_starts_with, scan_forward, string_of_range, trim_range, CharClass,
};

fn chars(s: &str) -> Vec<char> {
    s.chars().collect()
}

#[test]
fn characters_come_in_order() {
    assert_eq!(chars_of("a\u{e9}\u{1f600}b"), vec!['a', '\u{e9}', '\u{1f600}', 'b']);
    assert_eq!(chars_of(""), Vec::<char>::new());
}

#[test]
fn ranges_become_strings() {
    let v = chars("h\u{e9}llo");
    assert_eq!(string_of_range(&v, 0, 5), "h\u{e9}llo");
    assert_eq!(string_of_range(&v, 1, 3), "\u{e9}l");
    assert_eq!(string_of_range(&v, 2, 2), "");
}

#[test]
fn classes_hold_their_characters() {
    assert!(CharClass::Slash.test('/'));
    assert!(!CharClass::Slash.test('\\'));
    assert!(CharClass::Dot.test('.'));
    assert!(!CharClass::Dot.test(','));
    assert!(CharClass::LineBreak.test('\n'));
    assert!(!CharClass::LineBreak.test('\r'));
    assert!(CharClass::Comment.test('#'));
    assert!(CharClass::Comment.test(';'));
    assert!(!CharClass::Comment.test(':'));
    assert!(CharClass::Space.test(' '));
    assert!(CharClass::Space.test('\u{3000}'));
    assert!(!CharClass::Space.test('_'));
    assert!(!CharClass::Space.test('\u{200b}'));
}

#[test]
fn forward_scan_stops_where_the_run_ends() {
    let v = chars("  ab  c");
    assert_eq!(scan_forward(&v, 0, CharClass::Space, true), 2);
    assert_eq!(scan_forward(&v, 2, CharClass::Space, false), 4);
    assert_eq!(scan_forward(&v, 2, CharClass::Space, true), 2);
    assert_eq!(scan_forward(&v, 6, CharClass::Space, false), 7);
    assert_eq!(scan_forward(&v, 7, CharClass::Space, false), 7);
    assert_eq!(scan_forward(&chars(""), 0, CharClass::Dot, false), 0);
}

#[test]
fn trimming_narrows_a_range_to_what_is_not_white_space() {
    let v = chars("x  a b \t y");
    assert_eq!(trim_range(&v, 1, 8), (3, 6));
    assert_eq!(trim_range(&v, 3, 6), (3, 6));
    assert_eq!(trim_range(&v, 1, 3), (3, 3));
    assert_eq!(trim_range(&v, 0, 0), (0, 0));
    assert_eq!(trim_range(&v, 0, 10), (0, 10));
}

#[test]
fn prefix_of_a_range() {
    let v = chars("xxUnit=a");
    assert!(range_starts_with(&v, 2, 8, &chars("Unit=")));
    assert!(!range_starts_with(&v, 0, 8, &chars("Unit=")));
    assert!(!range_starts_with(&v, 2, 6, &chars("Unit=")));
    assert!(range_starts_with(&v, 2, 7, &chars("Unit=")));
    assert!(range_starts_with(&v, 3, 3, &chars("")));
}

#[test]
fn suffix_of_a_sequence() {
    assert!(ends_with(&chars("foo.timer"), &chars(".timer")));
    assert!(!ends_with(&chars("foo.timex"), &chars(".timer")));
    assert!(!ends_with(&chars("timer"), &chars(".timer")));
    assert!(ends_with(&chars(".timer"), &chars(".timer")));
    assert!(ends_with(&chars("x"), &chars("")));
}
