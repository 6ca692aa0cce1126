//! What holds of every run, whatever the host reports.

use vstd::prelude::*;
use vstd::utf8::is_ascii_chars_encode_utf8;
use crate::report::ExecutionResultView;
use crate::runner::{
    force_flag, interpreter, permission_failure_spec, script_arguments_spec, script_file_name,
    script_path_spec, spawn_failure_spec, unsupported_platform_spec, write_failure_spec,
    ActionView, EventView, Platform, RunnerView,
};

verus! {

/// Reporting `events` and then `event` is one more step from where `events`
/// lead.
pub proof fn lemma_after_push(runner: RunnerView, events: Seq<EventView>, event: EventView)
    ensures
        runner.after(events.push(event)) == runner.after(events).advance(event),
    decreases events.len(),
{
    if events.len() == 0 {
        assert(events.push(event).drop_first() =~= events);
        assert(runner.advance(event).after(events) == runner.advance(event));
    } else {
        assert(events.push(event).drop_first() =~= events.drop_first().push(event));
        lemma_after_push(runner.advance(events.first()), events.drop_first(), event);
    }
}

/// A report that answers the pending action brings the run one action
/// closer to its end, or ends it; any other report changes nothing.
pub proof fn lemma_advance_makes_progress(runner: RunnerView, event: EventView)
    ensures
        runner.action().answered_by(event) ==> runner.advance(event).actions_left()
            < runner.actions_left(),
        !runner.action().answered_by(event) ==> runner.advance(event) == runner,
        runner.finished() <==> runner.actions_left() == 0,
        runner.finished() <==> runner.action() is Finish,
{
}

/// On a platform that cannot run the script the run asks nothing of the
/// host, whatever `force` is and whatever the host reports: the only action
/// ever pending is to hand out the diagnostic that says so.
pub proof fn lemma_unsupported_platform_has_no_effects(
    force: bool,
    platform: Platform,
    temp_dir: Seq<u8>,
    script: Seq<char>,
    events: Seq<EventView>,
)
    requires
        !platform.supported(),
    ensures
        RunnerView::launched(force, platform, temp_dir, script).after(events).action()
            == (ActionView::Finish { result: Err(unsupported_platform_spec()) }),
    decreases events.len(),
{
    if events.len() > 0 {
        let runner = RunnerView::launched(force, platform, temp_dir, script);
        assert(runner.advance(events.first()) == runner);
        lemma_unsupported_platform_has_no_effects(
            force,
            platform,
            temp_dir,
            script,
            events.drop_first(),
        );
    }
}

/// Reporting `first` and then `rest` leads where `rest` leads from where
/// `first` leads.
pub proof fn lemma_after_concat(runner: RunnerView, first: Seq<EventView>, rest: Seq<EventView>)
    ensures
        runner.after(first + rest) == runner.after(first).after(rest),
    decreases first.len(),
{
    if first.len() == 0 {
        assert(first + rest =~= rest);
    } else {
        assert((first + rest).drop_first() =~= first.drop_first() + rest);
        lemma_after_concat(runner.advance(first.first()), first.drop_first(), rest);
    }
}

/// A run never changes what it was asked for, nor where it keeps its
/// script.
pub proof fn lemma_run_keeps_its_script(
    runner: RunnerView,
    force: bool,
    script_path: Seq<u8>,
    events: Seq<EventView>,
)
    requires
        runner.belongs_to(force, script_path),
    ensures
        runner.after(events).belongs_to(force, script_path),
    decreases events.len(),
{
    if events.len() > 0 {
        lemma_run_keeps_its_script(
            runner.advance(events.first()),
            force,
            script_path,
            events.drop_first(),
        );
    }
}

/// The arguments of the interpreter begin with the script's path. With
/// `force` they are two and the force flag is the last; without it the
/// path is the only one.
pub proof fn lemma_arguments_follow_force(script_path: Seq<u8>, force: bool)
    ensures
        script_arguments_spec(script_path, force).first() == script_path,
        force ==> script_arguments_spec(script_path, force).len() == 2 && script_arguments_spec(
            script_path,
            force,
        ).last() == force_flag(),
        !force ==> script_arguments_spec(script_path, force) == seq![script_path],
{
}

/// The path of the temporary script is not the force flag, whatever the
/// temporary directory is.
pub proof fn lemma_script_path_is_no_flag(temp_dir: Seq<u8>)
    ensures
        script_path_spec(temp_dir) != force_flag(),
{
    reveal_strlit("anti-clean.sh");
    reveal_strlit("--force");
    is_ascii_chars_encode_utf8("anti-clean.sh"@);
    is_ascii_chars_encode_utf8("--force"@);
    let name = script_file_name();
    let flag = force_flag();
    assert(name.len() == 13 && name[12] == 0x68);
    assert(flag.len() == 7 && flag[6] == 0x65);
    assert(script_path_spec(temp_dir).last() == name[12]);
    assert(flag.last() == flag[6]);
}

/// Whenever a run that was begun with `force` in `temp_dir` asks for the
/// subprocess, the program is the interpreter and its first argument is the
/// script's path. If `force` is set the force flag is the last argument; if
/// it is not, the force flag is no argument at all.
pub proof fn lemma_force_flag_is_last_argument(
    force: bool,
    temp_dir: Seq<u8>,
    script: Seq<char>,
    events: Seq<EventView>,
)
    ensures
        RunnerView::started(force, temp_dir, script).after(events).action() matches ActionView::Execute {
            program,
            arguments,
        } ==> {
            &&& program == interpreter()
            &&& arguments == script_arguments_spec(script_path_spec(temp_dir), force)
            &&& arguments.first() == script_path_spec(temp_dir)
            &&& force ==> arguments.last() == force_flag()
            &&& !force ==> !arguments.contains(force_flag())
        },
{
    let start = RunnerView::started(force, temp_dir, script);
    let path = script_path_spec(temp_dir);
    lemma_run_keeps_its_script(start, force, path, events);
    lemma_arguments_follow_force(path, force);
    lemma_script_path_is_no_flag(temp_dir);
}

/// Once the result of a run is settled, no subprocess is asked for any
/// more.
pub proof fn lemma_no_subprocess_once_settled(runner: RunnerView, events: Seq<EventView>)
    requires
        runner is ScriptExecuted || runner is Cleaned,
    ensures
        runner.after(events) is ScriptExecuted || runner.after(events) is Cleaned,
        !(runner.after(events).action() is Execute),
    decreases events.len(),
{
    if events.len() > 0 {
        lemma_no_subprocess_once_settled(runner.advance(events.first()), events.drop_first());
    }
}

/// If the script cannot be written, or cannot be made executable, no
/// subprocess is ever asked for.
pub proof fn lemma_failure_prevents_subprocess(
    runner: RunnerView,
    detail: Seq<char>,
    events: Seq<EventView>,
)
    requires
        runner is NotStarted || runner is ScriptWritten,
    ensures
        !(runner.advance(EventView::Failed(detail)).after(events).action() is Execute),
{
    lemma_no_subprocess_once_settled(runner.advance(EventView::Failed(detail)), events);
}

/// Whether, in the run that `events` drive from `runner`, the host was
/// asked for `action` and gave a report that answers it.
pub open spec fn asked_and_answered(
    runner: RunnerView,
    events: Seq<EventView>,
    action: ActionView,
) -> bool {
    exists|index: int|
        0 <= index < events.len() && #[trigger] runner.pending_at(events, index) == action
            && action.answered_by(events[index])
}

/// Whether, in the run that `events` drive from `runner`, the host was
/// asked to write the script and reported that it could not.
pub open spec fn write_failed(runner: RunnerView, events: Seq<EventView>) -> bool {
    exists|index: int|
        0 <= index < events.len() && #[trigger] runner.pending_at(events, index) is WriteScript
            && events[index] is Failed
}

/// What is pending before the first report is the action of the state
/// itself; what is pending before any later report is what is pending one
/// report earlier in the run from the state after the first report.
pub proof fn lemma_pending_shift(runner: RunnerView, events: Seq<EventView>, index: int)
    requires
        0 <= index < events.len(),
    ensures
        runner.pending_at(events, 0) == runner.action(),
        runner.pending_at(events, index + 1) == runner.advance(events.first()).pending_at(
            events.drop_first(),
            index,
        ),
{
    assert(events.take(0) =~= Seq::<EventView>::empty());
    assert(events.take(index + 1).drop_first() =~= events.drop_first().take(index));
}

/// What was asked and answered after the first report was asked and
/// answered in the whole run.
proof fn lemma_asked_after_first(runner: RunnerView, events: Seq<EventView>, action: ActionView)
    requires
        events.len() > 0,
        asked_and_answered(runner.advance(events.first()), events.drop_first(), action),
    ensures
        asked_and_answered(runner, events, action),
{
    let next = runner.advance(events.first());
    let rest = events.drop_first();
    let index = choose|index: int|
        0 <= index < rest.len() && #[trigger] next.pending_at(rest, index) == action
            && action.answered_by(rest[index]);
    lemma_pending_shift(runner, events, index);
    assert(runner.pending_at(events, index + 1) == action);
}

/// A write that failed after the first report failed in the whole run.
proof fn lemma_write_failed_after_first(runner: RunnerView, events: Seq<EventView>)
    requires
        events.len() > 0,
        write_failed(runner.advance(events.first()), events.drop_first()),
    ensures
        write_failed(runner, events),
{
    let next = runner.advance(events.first());
    let rest = events.drop_first();
    let index = choose|index: int|
        0 <= index < rest.len() && #[trigger] next.pending_at(rest, index) is WriteScript
            && rest[index] is Failed;
    lemma_pending_shift(runner, events, index);
    assert(runner.pending_at(events, index + 1) is WriteScript);
}

/// A run asks for at most one subprocess: once the host has answered that
/// request, none follows.
pub proof fn lemma_subprocess_runs_at_most_once(
    runner: RunnerView,
    events: Seq<EventView>,
    first: int,
    later: int,
)
    requires
        0 <= first < later <= events.len(),
        runner.pending_at(events, first) is Execute,
        runner.pending_at(events, first).answered_by(events[first]),
    ensures
        !(runner.pending_at(events, later) is Execute),
{
    let before = events.take(first);
    let settled = runner.after(before).advance(events[first]);
    lemma_after_push(runner, before, events[first]);
    assert(before.push(events[first]) =~= events.take(first + 1));
    let between = events.subrange(first + 1, later);
    assert(events.take(first + 1) + between =~= events.take(later));
    lemma_after_concat(runner, events.take(first + 1), between);
    lemma_no_subprocess_once_settled(settled, between);
}

/// A script that is on disk is removed before the run is over: if `events`
/// lead from a state with the script on disk to the end of the run, then at
/// some point the host was asked to remove the script and answered.
pub proof fn lemma_script_removed_before_finish(
    runner: RunnerView,
    force: bool,
    script_path: Seq<u8>,
    events: Seq<EventView>,
)
    requires
        runner.script_on_disk(),
        runner.belongs_to(force, script_path),
        runner.after(events).finished(),
    ensures
        asked_and_answered(runner, events, ActionView::RemoveScript { path: script_path }),
    decreases events.len(),
{
    if events.len() > 0 {
        let next = runner.advance(events.first());
        if next.finished() {
            lemma_pending_shift(runner, events, 0);
        } else {
            lemma_script_removed_before_finish(next, force, script_path, events.drop_first());
            lemma_asked_after_first(
                runner,
                events,
                ActionView::RemoveScript { path: script_path },
            );
        }
    }
}

/// A run that is over has either removed its script or never wrote it: if
/// `events` lead from a state in which nothing is written yet to the end of
/// the run, the host either was asked to remove the script and answered, or
/// reported that the write failed.
pub proof fn lemma_removed_or_never_written(
    runner: RunnerView,
    force: bool,
    script_path: Seq<u8>,
    events: Seq<EventView>,
)
    requires
        runner is NotStarted,
        runner.belongs_to(force, script_path),
        runner.after(events).finished(),
    ensures
        asked_and_answered(runner, events, ActionView::RemoveScript { path: script_path })
            || write_failed(runner, events),
    decreases events.len(),
{
    if events.len() > 0 {
        let next = runner.advance(events.first());
        let rest = events.drop_first();
        let removal = ActionView::RemoveScript { path: script_path };
        if next is NotStarted {
            lemma_removed_or_never_written(next, force, script_path, rest);
            if asked_and_answered(next, rest, removal) {
                lemma_asked_after_first(runner, events, removal);
            } else {
                lemma_write_failed_after_first(runner, events);
            }
        } else if next is Cleaned {
            lemma_pending_shift(runner, events, 0);
        } else {
            lemma_script_removed_before_finish(next, force, script_path, rest);
            lemma_asked_after_first(runner, events, removal);
        }
    }
}

/// Every run that was begun and is over has either removed its script, or
/// never wrote it: the host reported that the write failed.
pub proof fn lemma_nothing_left_behind(
    force: bool,
    temp_dir: Seq<u8>,
    script: Seq<char>,
    events: Seq<EventView>,
)
    requires
        RunnerView::started(force, temp_dir, script).after(events).finished(),
    ensures
        asked_and_answered(
            RunnerView::started(force, temp_dir, script),
            events,
            ActionView::RemoveScript { path: script_path_spec(temp_dir) },
        ) || write_failed(RunnerView::started(force, temp_dir, script), events),
{
    lemma_removed_or_never_written(
        RunnerView::started(force, temp_dir, script),
        force,
        script_path_spec(temp_dir),
        events,
    );
}

/// While the host answers what it is asked, every report brings the run
/// closer to its end: the host is asked for at most four things, and for
/// fewer if one of them fails.
pub proof fn lemma_run_is_short(runner: RunnerView, events: Seq<EventView>)
    requires
        forall|index: int|
            0 <= index < events.len() ==> (#[trigger] runner.pending_at(events, index)).answered_by(
                events[index],
            ),
    ensures
        runner.after(events).actions_left() + events.len() <= runner.actions_left(),
        events.len() <= 4,
    decreases events.len(),
{
    if events.len() > 0 {
        let next = runner.advance(events.first());
        let rest = events.drop_first();
        lemma_pending_shift(runner, events, 0);
        assert forall|index: int| 0 <= index < rest.len() implies (#[trigger] next.pending_at(
            rest,
            index,
        )).answered_by(rest[index]) by {
            lemma_pending_shift(runner, events, index);
            assert(runner.pending_at(events, index + 1).answered_by(events[index + 1]));
        }
        lemma_run_is_short(next, rest);
    }
}

/// Up to four reports, one after the other, lead where as many single
/// steps lead.
pub proof fn lemma_after_reports(
    runner: RunnerView,
    first: EventView,
    second: EventView,
    third: EventView,
    fourth: EventView,
)
    ensures
        runner.after(seq![first]) == runner.advance(first),
        runner.after(seq![first, second]) == runner.advance(first).advance(second),
        runner.after(seq![first, second, third]) == runner.advance(first).advance(second).advance(
            third,
        ),
        runner.after(seq![first, second, third, fourth]) == runner.advance(first).advance(
            second,
        ).advance(third).advance(fourth),
{
    let none = Seq::<EventView>::empty();
    lemma_after_push(runner, none, first);
    assert(none.push(first) =~= seq![first]);
    lemma_after_push(runner, seq![first], second);
    assert(seq![first].push(second) =~= seq![first, second]);
    lemma_after_push(runner, seq![first, second], third);
    assert(seq![first, second].push(third) =~= seq![first, second, third]);
    lemma_after_push(runner, seq![first, second, third], fourth);
    assert(seq![first, second, third].push(fourth) =~= seq![first, second, third, fourth]);
}

/// The result of a run in which the host could do all it was asked for is
/// the outcome of the execution, whether or not the script could be removed
/// afterwards.
pub proof fn lemma_result_of_execution(
    force: bool,
    temp_dir: Seq<u8>,
    script: Seq<char>,
    execution: ExecutionResultView,
    removal: EventView,
)
    requires
        removal is Completed || removal is Failed,
    ensures
        RunnerView::started(force, temp_dir, script).after(
            seq![EventView::Completed, EventView::Completed, EventView::Exited(execution), removal],
        ) == (RunnerView::Cleaned { result: execution.outcome() }),
{
    lemma_after_reports(
        RunnerView::started(force, temp_dir, script),
        EventView::Completed,
        EventView::Completed,
        EventView::Exited(execution),
        removal,
    );
}

/// The result of a run whose script could not be written is the
/// diagnostic of the write, and the run is over at once.
pub proof fn lemma_result_of_failed_write(
    force: bool,
    temp_dir: Seq<u8>,
    script: Seq<char>,
    detail: Seq<char>,
)
    ensures
        RunnerView::started(force, temp_dir, script).advance(EventView::Failed(detail)) == (
        RunnerView::Cleaned { result: Err(write_failure_spec(detail)) }),
{
}

/// The result of a run whose script could not be made executable is the
/// diagnostic of the permission change, once the script has been removed.
pub proof fn lemma_result_of_failed_permissions(
    force: bool,
    temp_dir: Seq<u8>,
    script: Seq<char>,
    detail: Seq<char>,
    removal: EventView,
)
    requires
        removal is Completed || removal is Failed,
    ensures
        RunnerView::started(force, temp_dir, script).after(
            seq![EventView::Completed, EventView::Failed(detail), removal],
        ) == (RunnerView::Cleaned { result: Err(permission_failure_spec(detail)) }),
{
    lemma_after_reports(
        RunnerView::started(force, temp_dir, script),
        EventView::Completed,
        EventView::Failed(detail),
        removal,
        removal,
    );
}

/// The result of a run whose subprocess could not be launched or awaited
/// is the diagnostic of the launch, once the script has been removed.
pub proof fn lemma_result_of_failed_launch(
    force: bool,
    temp_dir: Seq<u8>,
    script: Seq<char>,
    detail: Seq<char>,
    removal: EventView,
)
    requires
        removal is Completed || removal is Failed,
    ensures
        RunnerView::started(force, temp_dir, script).after(
            seq![EventView::Completed, EventView::Completed, EventView::Failed(detail), removal],
        ) == (RunnerView::Cleaned { result: Err(spawn_failure_spec(detail)) }),
{
    lemma_after_reports(
        RunnerView::started(force, temp_dir, script),
        EventView::Completed,
        EventView::Completed,
        EventView::Failed(detail),
        removal,
    );
}

} // verus!
