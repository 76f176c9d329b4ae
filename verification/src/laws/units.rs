//! The two unit files of a task: their names and their texts.

use crate::laws::names::lemma_canonical_name_over_base;
use crate::naming::{base_name, canonical_name, service_suffix};
use crate::text::{
    has_no, lemma_lines_of_line, lemma_lines_of_more, lemma_run_end, lemma_run_start, lines_of,
    run_end, run_start, trimmed, CharClass,
};
use crate::unitfile::{first_unit, referenced_unit, unit_key, unit_of_line};
use crate::usertimer::{catch_up_line, timer_text_tail, UserTimer, UserTimerView};
use vstd::prelude::*;

verus! {

/// The two units of a task go by one base name. The trigger unit bears the canonical name
/// of the task, and the execution unit bears the trigger unit's base name with the service
/// suffix, which is where the control plane looks for what a trigger activates.
pub proof fn lemma_units_share_base(t: UserTimerView)
    ensures
        t.timer_unit() == canonical_name(t.name),
        base_name(t.timer_unit()) == base_name(t.name),
        t.service_unit() == base_name(t.timer_unit()) + service_suffix(),
{
    lemma_canonical_name_over_base(t.name);
}

/// The texts of the two units depend on nothing but the task: equal tasks give equal
/// texts, character for character.
pub proof fn lemma_texts_follow_task(a: UserTimer, b: UserTimer)
    requires
        a@ == b@,
    ensures
        a@.service_text() == b@.service_text(),
        a@.timer_text() == b@.timer_text(),
{
}

/// The execution unit's text does not change with the task's name or with its way with
/// missed runs, and the trigger unit's text does not change with the name or the command
/// line.
pub proof fn lemma_texts_read_their_fields(a: UserTimerView, b: UserTimerView)
    ensures
        a.description == b.description && a.executable == b.executable ==> a.service_text()
            == b.service_text(),
        a.description == b.description && a.schedule == b.schedule && a.exec_if_missed
            == b.exec_if_missed ==> a.timer_text() == b.timer_text(),
{
}

/// The line that makes up for missed runs stands in the trigger unit where that is asked
/// for, between the schedule and the install section, on a line of its own. Where it is not
/// asked for, nothing stands in its place: the text is the same text with the line cut out.
pub proof fn lemma_catch_up_line(t: UserTimerView)
    ensures
        t.exec_if_missed ==> t.timer_text() == t.timer_text_head() + "Persistent=true"@
            + timer_text_tail(),
        !t.exec_if_missed ==> t.timer_text() == t.timer_text_head() + timer_text_tail(),
        catch_up_line(t.exec_if_missed).len() > 0 <==> t.exec_if_missed,
        t.timer_text_head() == (UserTimerView {
            exec_if_missed: !t.exec_if_missed,
            ..t
        }).timer_text_head(),
        t.timer_text_head().last() == '\n',
        timer_text_tail().first() == '\n',
{
    reveal_strlit("Persistent=true");
    reveal_strlit("\n");
    reveal_strlit("\n\n[Install]\nWantedBy=timers.target\n");
    assert(t.timer_text_head() + Seq::<char>::empty() =~= t.timer_text_head());
}

/// Whether the description and the schedule of a task are one line each.
pub open spec fn single_lined(t: UserTimerView) -> bool {
    has_no(t.description, CharClass::LineBreak) && has_no(t.schedule, CharClass::LineBreak)
}

/// The lines of the trigger unit of a task whose description and schedule are one line
/// each.
pub open spec fn timer_lines(t: UserTimerView) -> Seq<Seq<char>> {
    seq![
        "[Unit]"@,
        "Description="@ + t.description,
        Seq::empty(),
        "[Timer]"@,
        "OnCalendar="@ + t.schedule,
        catch_up_line(t.exec_if_missed),
        Seq::empty(),
        "[Install]"@,
        "WantedBy=timers.target"@,
        Seq::empty(),
    ]
}

/// The trigger unit of a task whose description and schedule are one line each has ten
/// lines: three sections parted by empty lines, with the line that makes up for missed runs,
/// or an empty line in its place, at the end of the second.
pub proof fn lemma_timer_lines(t: UserTimerView)
    requires
        single_lined(t),
    ensures
        lines_of(t.timer_text()) == timer_lines(t),
{
    reveal_strlit("[Unit]\nDescription=");
    reveal_strlit("\n\n[Timer]\nOnCalendar=");
    reveal_strlit("\n");
    reveal_strlit("\n\n[Install]\nWantedBy=timers.target\n");
    reveal_strlit("[Unit]");
    reveal_strlit("Description=");
    reveal_strlit("[Timer]");
    reveal_strlit("OnCalendar=");
    reveal_strlit("Persistent=true");
    reveal_strlit("[Install]");
    reveal_strlit("WantedBy=timers.target");
    let nl = seq!['\n'];
    let none = Seq::<char>::empty();
    let l = timer_lines(t);
    assert("[Unit]\nDescription="@ =~= l[0] + nl + "Description="@);
    assert("\n\n[Timer]\nOnCalendar="@ =~= nl + nl + l[3] + nl + "OnCalendar="@);
    assert("\n"@ =~= nl);
    assert(timer_text_tail() =~= nl + nl + l[7] + nl + l[8] + nl);
    let r8 = l[8] + nl + none;
    let r7 = l[7] + nl + r8;
    let r6 = none + nl + r7;
    let r5 = l[5] + nl + r6;
    let r4 = l[4] + nl + r5;
    let r3 = l[3] + nl + r4;
    let r2 = none + nl + r3;
    let r1 = l[1] + nl + r2;
    let r0 = l[0] + nl + r1;
    assert(nl + r6 =~= timer_text_tail());
    assert(r5 =~= catch_up_line(t.exec_if_missed) + timer_text_tail());
    assert(r4 =~= "OnCalendar="@ + t.schedule + "\n"@ + catch_up_line(t.exec_if_missed)
        + timer_text_tail());
    assert(nl + r2 =~= "\n\n[Timer]\nOnCalendar="@ + t.schedule + "\n"@ + catch_up_line(
        t.exec_if_missed,
    ) + timer_text_tail());
    assert(r0 =~= t.timer_text());
    assert(has_no(l[1], CharClass::LineBreak)) by {
        assert forall|i: int| 0 <= i < l[1].len() implies !CharClass::LineBreak.holds(
            #[trigger] l[1][i],
        ) by {
            if i >= "Description="@.len() {
                assert(l[1][i] == t.description[i - "Description="@.len()]);
            }
        }
    }
    assert(has_no(l[4], CharClass::LineBreak)) by {
        assert forall|i: int| 0 <= i < l[4].len() implies !CharClass::LineBreak.holds(
            #[trigger] l[4][i],
        ) by {
            if i >= "OnCalendar="@.len() {
                assert(l[4][i] == t.schedule[i - "OnCalendar="@.len()]);
            }
        }
    }
    lemma_lines_of_line(none);
    lemma_lines_of_more(l[8], none);
    lemma_lines_of_more(l[7], r8);
    lemma_lines_of_more(none, r7);
    lemma_lines_of_more(l[5], r6);
    lemma_lines_of_more(l[4], r5);
    lemma_lines_of_more(l[3], r4);
    lemma_lines_of_more(none, r3);
    lemma_lines_of_more(l[1], r2);
    lemma_lines_of_more(l[0], r1);
    assert(lines_of(r0) =~= l);
}

/// Among the lines of the trigger unit of a task whose description and schedule are one
/// line each, there is the line that makes up for missed runs if and only if the task asks
/// for it.
pub proof fn lemma_catch_up_iff_asked(t: UserTimerView)
    requires
        single_lined(t),
    ensures
        lines_of(t.timer_text()).contains("Persistent=true"@) <==> t.exec_if_missed,
{
    lemma_timer_lines(t);
    reveal_strlit("[Unit]");
    reveal_strlit("Description=");
    reveal_strlit("[Timer]");
    reveal_strlit("OnCalendar=");
    reveal_strlit("Persistent=true");
    reveal_strlit("[Install]");
    reveal_strlit("WantedBy=timers.target");
    let l = timer_lines(t);
    let wanted = "Persistent=true"@;
    if t.exec_if_missed {
        assert(l[5] == wanted);
    } else {
        assert(l[1][0] == 'D' && l[4][0] == 'O' && wanted[0] == 'P');
        assert(l[0].len() == 6 && l[3].len() == 7 && l[7].len() == 9 && l[8].len() == 22);
        assert(wanted.len() == 15);
        assert forall|i: int| 0 <= i < l.len() implies l[i] != wanted by {
            if i == 1 || i == 4 {
                assert(l[i][0] != wanted[0]);
            } else {
                assert(l[i].len() != wanted.len());
            }
        }
    }
}

/// A line that is empty, or that begins with something that is neither white space nor
/// the first letter of the key, names no unit.
pub proof fn lemma_line_without_key(line: Seq<char>)
    requires
        line.len() == 0 || (!CharClass::Space.holds(line[0]) && line[0] != 'U'),
    ensures
        unit_of_line(line) is None,
{
    reveal_strlit("Unit=");
    lemma_run_end(line, 0, CharClass::Space, true);
    lemma_run_start(line, line.len() as int, CharClass::Space, true);
    let from = run_end(line, 0, CharClass::Space, true);
    let to = run_start(line, line.len() as int, CharClass::Space, true);
    if line.len() > 0 {
        assert(from == 0);
        assert(to > 0) by {
            if to == 0 {
                assert(CharClass::Space.holds(line[0]));
            }
        }
        assert(trimmed(line)[0] == line[0]);
        if unit_key().is_prefix_of(trimmed(line)) {
            assert(trimmed(line).subrange(0, unit_key().len() as int)[0] == unit_key()[0]);
        }
    }
}

/// The trigger unit that this library writes names no execution unit, for a task whose
/// description and schedule are one line each: it activates the unit that shares its base
/// name.
pub proof fn lemma_trigger_names_no_unit(t: UserTimerView)
    requires
        single_lined(t),
    ensures
        referenced_unit(t.timer_text()) is None,
{
    lemma_timer_lines(t);
    reveal_strlit("[Unit]");
    reveal_strlit("Description=");
    reveal_strlit("[Timer]");
    reveal_strlit("OnCalendar=");
    reveal_strlit("Persistent=true");
    reveal_strlit("[Install]");
    reveal_strlit("WantedBy=timers.target");
    let l = timer_lines(t);
    assert(l[1][0] == 'D' && l[4][0] == 'O');
    assert forall|i: int| 0 <= i < l.len() implies unit_of_line(#[trigger] l[i]) is None by {
        lemma_line_without_key(l[i]);
    }
    lemma_first_unit_of_none(l);
}

/// Lines of which none names a unit name no unit.
pub proof fn lemma_first_unit_of_none(lines: Seq<Seq<char>>)
    requires
        forall|i: int| 0 <= i < lines.len() ==> unit_of_line(#[trigger] lines[i]) is None,
    ensures
        first_unit(lines) is None,
    decreases lines.len(),
{
    if lines.len() > 0 {
        let rest = lines.skip(1);
        assert forall|i: int| 0 <= i < rest.len() implies unit_of_line(#[trigger] rest[i])
            is None by {
            assert(rest[i] == lines[i + 1]);
        }
        lemma_first_unit_of_none(rest);
    }
}

} // verus!
