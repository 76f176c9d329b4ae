//! The commands: in what order they act, and where they stop.

use crate::error::{shows_answer, Artifact, Operation, TimerErrorView};
use crate::gateway::{ActionView, EventView};
use crate::laws::names::{lemma_canonical_name, lemma_canonical_name_over_base};
use crate::laws::units::{lemma_trigger_names_no_unit, single_lined};
use crate::naming::{canonical_name, resolved_name};
use crate::subcommand::{add_workflow, unit_workflow, Stage, WorkflowView};
use crate::unitfile::referenced_unit;
use crate::usertimer::{unit_dir, UserTimerView};
use vstd::prelude::*;

verus! {

/// What a workflow asks for in answer to `events`, one action for each event.
pub open spec fn answers(w: WorkflowView, events: Seq<EventView>) -> Seq<ActionView>
    decreases events.len(),
{
    if events.len() == 0 {
        Seq::empty()
    } else {
        let (next, action) = w.step(events[0]);
        seq![action] + answers(next, events.skip(1))
    }
}

/// Where a workflow stands after `events`.
pub open spec fn after(w: WorkflowView, events: Seq<EventView>) -> WorkflowView
    decreases events.len(),
{
    if events.len() == 0 {
        w
    } else {
        after(w.step(events[0]).0, events.skip(1))
    }
}

/// Whether carrying `action` out leaves the files and the control plane as they are.
pub open spec fn changes_nothing(action: ActionView) -> bool {
    !(action is WriteFile) && !(action is RemoveFile) && !(action is Control)
}

/// Whether `stage` is one of `add`.
pub open spec fn adding(stage: Stage) -> bool {
    stage == Stage::ProbingExecutable || stage == Stage::SearchingExecutable || stage
        == Stage::ValidatingSchedule || stage == Stage::WritingService || stage
        == Stage::WritingTimer || stage == Stage::LoadingUnits || stage == Stage::Enabling
        || stage == Stage::Starting
}

/// There is one answer for each event.
pub proof fn lemma_answers_len(w: WorkflowView, events: Seq<EventView>)
    ensures
        answers(w, events).len() == events.len(),
    decreases events.len(),
{
    if events.len() > 0 {
        lemma_answers_len(w.step(events[0]).0, events.skip(1));
    }
}

/// A command that has ended stays ended: it asks for nothing more, whatever it is told.
pub proof fn lemma_finished_is_final(w: WorkflowView, events: Seq<EventView>)
    requires
        w.stage == Stage::Finished,
    ensures
        after(w, events) == w,
        answers(w, events).len() == events.len(),
        forall|i: int| 0 <= i < events.len() ==> #[trigger] answers(w, events)[i] == ActionView::Done,
    decreases events.len(),
{
    if events.len() > 0 {
        lemma_finished_is_final(w, events.skip(1));
    }
}

/// `add` where everything goes well and the command is a file: the schedule is checked,
/// the execution unit is written, then the trigger unit, then the units are loaded, the
/// trigger is enabled and started, in this order and with nothing in between.
pub proof fn lemma_add_in_order(w: WorkflowView, events: Seq<EventView>)
    requires
        w.stage == Stage::ProbingExecutable,
        events.len() == 7,
        forall|i: int| 0 <= i < 7 ==> (#[trigger] events[i]).went_well(),
    ensures
        answers(w, events) == seq![
            ActionView::CheckSchedule { schedule: w.timer.schedule },
            w.write_service(),
            w.write_timer(),
            w.call(Operation::Reload),
            w.call(Operation::Enable),
            w.call(Operation::Start),
            ActionView::Done,
        ],
        after(w, events).stage == Stage::Finished,
{
    reveal_with_fuel(answers, 8);
    reveal_with_fuel(after, 8);
    let e1 = events.skip(1);
    let e2 = e1.skip(1);
    let e3 = e2.skip(1);
    let e4 = e3.skip(1);
    let e5 = e4.skip(1);
    let e6 = e5.skip(1);
    assert(events[0].went_well());
    assert(e1[0] == events[1] && e2[0] == events[2] && e3[0] == events[3] && e4[0] == events[4]
        && e5[0] == events[5] && e6[0] == events[6]);
    assert(e6.skip(1).len() == 0);
    assert(answers(w, events) =~= seq![
        ActionView::CheckSchedule { schedule: w.timer.schedule },
        w.write_service(),
        w.write_timer(),
        w.call(Operation::Reload),
        w.call(Operation::Enable),
        w.call(Operation::Start),
        ActionView::Done,
    ]);
}

/// `add` where the command is no file: the search path is asked next, and a command found
/// there is as good as a file.
pub proof fn lemma_add_searches_path(w: WorkflowView, e: EventView, found: EventView)
    requires
        w.stage == Stage::ProbingExecutable,
        !e.went_well(),
    ensures
        w.step(e).1 == (ActionView::FindCommand { command: w.command }),
        found.went_well() ==> w.step(e).0.step(found) == w.step(EventView::Succeeded),
        !found.went_well() ==> w.step(e).0.step(found).1 == (ActionView::Abort {
            error: TimerErrorView::InvalidExecutable { executable: w.request },
        }) && w.step(e).0.step(found).0.stage == Stage::Finished,
{
}

/// `add` changes nothing before the schedule has been found valid: up to then it only asks
/// questions, and a schedule that is turned down ends the command with an error that names
/// the schedule.
pub proof fn lemma_add_validates_first(w: WorkflowView, e: EventView)
    requires
        w.stage == Stage::ProbingExecutable || w.stage == Stage::SearchingExecutable || w.stage
            == Stage::ValidatingSchedule,
    ensures
        !changes_nothing(w.step(e).1) ==> w.stage == Stage::ValidatingSchedule && e.went_well(),
        w.stage == Stage::ValidatingSchedule && !e.went_well() ==> w.step(e).0.stage
            == Stage::Finished && w.step(e).1 == (ActionView::Abort {
            error: TimerErrorView::InvalidSchedule { schedule: w.timer.schedule },
        }),
{
}

/// After a schedule was turned down, `add` writes no file and asks nothing of the control
/// plane, whatever it is told from then on.
pub proof fn lemma_rejected_schedule_changes_nothing(w: WorkflowView, events: Seq<EventView>)
    requires
        w.stage == Stage::ValidatingSchedule,
        events.len() > 0,
        !events[0].went_well(),
    ensures
        answers(w, events).len() == events.len(),
        forall|i: int| 0 <= i < events.len() ==> changes_nothing(#[trigger] answers(w, events)[i]),
{
    let (next, action) = w.step(events[0]);
    lemma_finished_is_final(next, events.skip(1));
    assert forall|i: int| 0 <= i < events.len() implies changes_nothing(
        #[trigger] answers(w, events)[i],
    ) by {
        if i > 0 {
            assert(answers(w, events)[i] == answers(next, events.skip(1))[i - 1]);
        }
    }
}

/// In `add`, each step but the first ends the command when it fails, and each is reached
/// only from the step before it, when that went well. So the trigger unit is written only
/// once the execution unit has been, and nothing is enabled before both are loaded.
pub proof fn lemma_add_stops_at_failure(w: WorkflowView, e: EventView)
    requires
        adding(w.stage),
    ensures
        !e.went_well() && w.stage != Stage::ProbingExecutable ==> w.step(e).0.stage
            == Stage::Finished && w.step(e).1 is Abort,
        w.step(e).0.stage == Stage::WritingTimer ==> w.stage == Stage::WritingService
            && e.went_well() && w.step(e).1 == w.write_timer(),
        w.step(e).0.stage == Stage::LoadingUnits ==> w.stage == Stage::WritingTimer
            && e.went_well(),
        w.step(e).0.stage == Stage::Enabling ==> w.stage == Stage::LoadingUnits && e.went_well(),
        w.step(e).0.stage == Stage::Starting ==> w.stage == Stage::Enabling && e.went_well(),
        adding(w.step(e).0.stage) || w.step(e).0.stage == Stage::Finished,
{
}

/// A command that is one request to the control plane ends with the answer: well, or over
/// the failure of the request. `status` and `list` show what the control plane said first.
pub proof fn lemma_single_call(w: WorkflowView, operation: Operation, e: EventView, any: EventView)
    requires
        w.stage == Stage::Calling(operation),
    ensures
        !e.went_well() ==> w.step(e) == (w.at(Stage::Finished), w.call_failed(operation)),
        e.went_well() && !shows_answer(operation) ==> w.step(e) == (
            w.at(Stage::Finished),
            ActionView::Done,
        ),
        e.went_well() && shows_answer(operation) ==> w.step(e).1 == (ActionView::Print {
            text: e.text(),
        }) && w.step(e).0.step(any) == (w.at(Stage::Finished), ActionView::Done),
{
}

/// `remove` deletes nothing before the trigger unit is disabled: a failure to disable it
/// ends the command, and the deletion of the trigger unit is what follows a success.
pub proof fn lemma_remove_disables_first(w: WorkflowView, e: EventView)
    requires
        w.stage == Stage::Disabling,
    ensures
        !e.went_well() ==> w.step(e) == (w.at(Stage::Finished), w.call_failed(Operation::Disable)),
        e.went_well() ==> w.step(e) == (
            w.at(Stage::RemovingTimer),
            ActionView::RemoveFile { path: w.timer.timer_path(w.home) },
        ),
{
}

/// `remove` of the trigger unit alone. However the deletion goes, the reload comes last,
/// after the failure has been told where there was one, and no other file is read or
/// deleted.
pub proof fn lemma_remove_reloads_last(w: WorkflowView, events: Seq<EventView>)
    requires
        w.stage == Stage::RemovingTimer,
        !w.cascade,
        events.len() >= 3,
    ensures
        events[0].went_well() ==> answers(w, events)[0] == w.call(Operation::Reload) && after(
            w,
            events.take(2),
        ).stage == Stage::Finished,
        !events[0].went_well() ==> answers(w, events)[0] == (ActionView::Report {
            error: TimerErrorView::RemoveFailed {
                artifact: Artifact::Timer,
                reason: events[0].reason(),
            },
        }) && answers(w, events)[1] == w.call(Operation::Reload) && after(w, events.take(3)).stage
            == Stage::Finished,
        forall|i: int|
            0 <= i < events.len() ==> !(#[trigger] answers(w, events)[i] is RemoveFile) && !(answers(
                w,
                events,
            )[i] is ReadFile),
{
    reveal_with_fuel(answers, 4);
    reveal_with_fuel(after, 4);
    let e1 = events.skip(1);
    let e2 = e1.skip(1);
    let e3 = e2.skip(1);
    assert(e1[0] == events[1] && e2[0] == events[2]);
    assert(events.take(2)[0] == events[0] && events.take(2).skip(1)[0] == events[1]);
    assert(events.take(2).skip(1).skip(1).len() == 0);
    assert(events.take(3)[0] == events[0] && events.take(3).skip(1)[0] == events[1]
        && events.take(3).skip(1).skip(1)[0] == events[2]);
    assert(events.take(3).skip(1).skip(1).skip(1).len() == 0);
    if events[0].went_well() {
        let w1 = w.step(events[0]).0;
        let w2 = w1.step(events[1]).0;
        assert(w2.stage == Stage::Finished);
        lemma_finished_is_final(w2, e2);
        assert forall|i: int| 0 <= i < events.len() implies !(#[trigger] answers(w, events)[i]
            is RemoveFile) && !(answers(w, events)[i] is ReadFile) by {
            if i >= 2 {
                assert(answers(w, events)[i] == answers(w2, e2)[i - 2]);
            }
        }
    } else {
        let w1 = w.step(events[0]).0;
        let w2 = w1.step(events[1]).0;
        let w3 = w2.step(events[2]).0;
        assert(w3.stage == Stage::Finished);
        lemma_finished_is_final(w3, e3);
        assert forall|i: int| 0 <= i < events.len() implies !(#[trigger] answers(w, events)[i]
            is RemoveFile) && !(answers(w, events)[i] is ReadFile) by {
            if i >= 3 {
                assert(answers(w, events)[i] == answers(w3, e3)[i - 3]);
            }
        }
    }
}

/// `remove` with the execution unit. The unit that goes is the one that the trigger unit
/// names, where its text could still be read and names one; else it is the unit that
/// shares the task's base name.
pub proof fn lemma_remove_follows_reference(w: WorkflowView, e: EventView)
    requires
        w.stage == Stage::ReadingTimer,
    ensures
        w.step(e).0 == w.at(Stage::RemovingService),
        e is Produced && referenced_unit(e->text) is Some ==> w.step(e).1 == (
        ActionView::RemoveFile { path: unit_dir(w.home) + referenced_unit(e->text)->0 }),
        !(e is Produced && referenced_unit(e->text) is Some) ==> w.step(e).1 == (
        ActionView::RemoveFile { path: w.timer.service_path(w.home) }),
{
}

/// `remove` with the execution unit looks for it once it is through with the trigger unit,
/// whether that could be deleted or not, and reloads once it is through with the execution
/// unit, whether that could be deleted or not.
pub proof fn lemma_remove_cascades(w: WorkflowView, e: EventView, any: EventView)
    requires
        w.cascade,
    ensures
        w.stage == Stage::RemovingTimer && e.went_well() ==> w.step(e) == (
            w.at(Stage::ReadingTimer),
            ActionView::ReadFile { path: w.timer.timer_path(w.home) },
        ),
        w.stage == Stage::RemovingTimer && !e.went_well() ==> w.step(e).1 is Report && w.step(
            e,
        ).0.step(any) == (
            w.at(Stage::ReadingTimer),
            ActionView::ReadFile { path: w.timer.timer_path(w.home) },
        ),
        w.stage == Stage::RemovingService && e.went_well() ==> w.step(e) == (
            w.at(Stage::ForgettingUnits),
            w.call(Operation::Reload),
        ),
        w.stage == Stage::RemovingService && !e.went_well() ==> w.step(e).1 is Report && w.step(
            e,
        ).0.step(any) == (w.at(Stage::ForgettingUnits), w.call(Operation::Reload)),
{
}

/// `remove` with the execution unit, of a task that `add` defined: what is left of the
/// trigger unit names no unit, so the unit that goes is the one that `add` wrote.
pub proof fn lemma_remove_undoes_add(w: WorkflowView, written: UserTimerView)
    requires
        w.stage == Stage::ReadingTimer,
        single_lined(written),
        written.name == w.timer.name,
    ensures
        w.step(EventView::Produced { text: written.timer_text() }).1 == (ActionView::RemoveFile {
            path: written.service_path(w.home),
        }),
{
    lemma_trigger_names_no_unit(written);
}

/// A command on a task asks the control plane for the unit that bears the canonical name
/// of the task, whether the user gave the name with the timer suffix or without.
pub proof fn lemma_commands_name_the_canonical_unit(
    stage: Stage,
    name: Seq<char>,
    home: Seq<char>,
    cascade: bool,
    operation: Operation,
)
    requires
        operation != Operation::Reload,
        operation != Operation::List,
    ensures
        unit_workflow(stage, canonical_name(name), home, cascade).call(operation) == (
        ActionView::Control { operation, unit: canonical_name(name) }),
        unit_workflow(stage, canonical_name(name), home, cascade) == unit_workflow(
            stage,
            canonical_name(canonical_name(name)),
            home,
            cascade,
        ),
{
    lemma_canonical_name(name);
    lemma_canonical_name_over_base(canonical_name(name));
}

/// The task that `add` defines goes by a canonical name, and its trigger unit bears that
/// name: it is the unit that `add` writes, enables and starts.
pub proof fn lemma_add_names_the_trigger(
    executable: Seq<char>,
    when: Seq<char>,
    name: Option<Seq<char>>,
    description: Option<Seq<char>>,
    exec_if_missed: bool,
    home: Seq<char>,
)
    ensures
        ({
            let w = add_workflow(executable, when, name, description, exec_if_missed, home);
            &&& w.timer.name == canonical_name(resolved_name(executable, name))
            &&& w.timer.timer_unit() == w.timer.name
            &&& w.call(Operation::Enable) == (ActionView::Control {
                operation: Operation::Enable,
                unit: w.timer.name,
            })
            &&& w.call(Operation::Start) == (ActionView::Control {
                operation: Operation::Start,
                unit: w.timer.name,
            })
            &&& w.write_timer() is WriteFile && w.write_timer()->WriteFile_path == unit_dir(home)
                + w.timer.name
        }),
{
    let n = resolved_name(executable, name);
    lemma_canonical_name(n);
    lemma_canonical_name_over_base(canonical_name(n));
}

} // verus!
