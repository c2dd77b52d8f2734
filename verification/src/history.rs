//! What holds of a whole run, from its first event on.

use vstd::prelude::*;

use crate::laws;
use crate::model;
use crate::model::{Step, TraceState};
use crate::protocol::{Action, Event, Phase, WaitStatus};
use crate::syscall_info::InfoView;

verus! {

/// The state before any event: the run waits.
pub open spec fn start(trace: TraceState) -> Step {
    Step { trace, run: model::initial_run(trace.pid), action: Action::Wait }
}

/// The state after a run was told the events, one after the other.
pub open spec fn after(trace: TraceState, events: Seq<Event>) -> Step
    decreases events.len(),
{
    if events.len() == 0 {
        start(trace)
    } else {
        let before = after(trace, events.drop_last());
        model::next(before.trace, before.run, events.last())
    }
}

/// Each of the events can be handled when it comes.
pub open spec fn are_accepted(trace: TraceState, events: Seq<Event>) -> bool
    decreases events.len(),
{
    events.len() > 0 ==> {
        let before = after(trace, events.drop_last());
        &&& are_accepted(trace, events.drop_last())
        &&& model::is_acceptable(before.trace, before.run, events.last())
    }
}

/// The change of state is one that a run ends with: the process `pid` exited, or a process was
/// killed.
pub open spec fn is_end(status: WaitStatus, pid: i32) -> bool {
    match status {
        WaitStatus::Exited { pid: exited, .. } => exited == pid,
        WaitStatus::Signaled { .. } => true,
        _ => false,
    }
}

/// The event tells of a change of state that a run ends with.
pub open spec fn tells_end(event: Event, pid: i32) -> bool {
    event matches Event::Status(status) && is_end(status, pid)
}

/// One of the events tells of a change of state that a run ends with.
pub open spec fn has_ended(events: Seq<Event>, pid: i32) -> bool {
    exists|i: int| 0 <= i < events.len() && tells_end(#[trigger] events[i], pid)
}

/// How many events at most are still to come of a run that is about to end.
pub open spec fn events_left(phase: Phase) -> int {
    match phase {
        Phase::SettingOptions { .. } => 4,
        Phase::Terminating => 3,
        Phase::SummaryGap => 2,
        Phase::Reporting => 1,
        _ => 0,
    }
}

/// The run is about to end, or is over, and not because of an error.
pub open spec fn is_closing(step: Step, pid: i32) -> bool {
    match step.run.phase {
        Phase::SettingOptions { status } => is_end(status, pid),
        Phase::Terminating => true,
        Phase::SummaryGap => true,
        Phase::Reporting => true,
        Phase::Finished => step.action is Finish,
        _ => false,
    }
}

/// The run is over because of an error.
pub open spec fn is_broken_off(step: Step) -> bool {
    step.run.phase is Finished && (step.action is Fail || step.action is Propagate)
}

/// What one event makes of a run that is not over.
proof fn lemma_event(before: Step, event: Event)
    requires
        model::is_answer(before.run.phase, event),
    ensures
        ({
            let pid = before.trace.pid;
            let step = model::next(before.trace, before.run, event);
            &&& step.trace.pid == pid
            &&& step.run.phase is Finished ==> is_broken_off(step) || step.action is Finish
            &&& is_closing(before, pid) ==> {
                &&& !(event is Status)
                &&& is_closing(step, pid) || (is_broken_off(step) && event is Failed)
                &&& events_left(step.run.phase) < events_left(before.run.phase)
            }
            &&& !is_closing(before, pid) ==> {
                &&& is_closing(step, pid) <==> tells_end(event, pid)
                &&& tells_end(event, pid) ==> events_left(step.run.phase) <= 4
            }
        }),
{
}

/// A run is about to end, or over, if and only if it was told of an exit of the process that was
/// started or of a process that was killed, or broke off.
proof fn lemma_closing(trace: TraceState, events: Seq<Event>)
    requires
        are_accepted(trace, events),
    ensures
        ({
            let step = after(trace, events);
            &&& step.trace.pid == trace.pid
            &&& !has_ended(events, trace.pid) ==> !is_closing(step, trace.pid)
            &&& has_ended(events, trace.pid) ==> is_closing(step, trace.pid) || (is_broken_off(step)
                && events.last() is Failed)
            &&& step.run.phase is Finished ==> is_broken_off(step) || step.action is Finish
        }),
    decreases events.len(),
{
    if events.len() > 0 {
        let rest = events.drop_last();
        let before = after(trace, rest);
        lemma_closing(trace, rest);
        lemma_event(before, events.last());
        assert(events[events.len() - 1] == events.last());
        if has_ended(rest, trace.pid) {
            let i = choose|i: int| 0 <= i < rest.len() && tells_end(#[trigger] rest[i], trace.pid);
            assert(tells_end(events[i], trace.pid));
        }
        if has_ended(events, trace.pid) && !tells_end(events.last(), trace.pid) {
            let i = choose|i: int|
                0 <= i < events.len() && tells_end(#[trigger] events[i], trace.pid);
            assert(tells_end(rest[i], trace.pid));
        }
    }
}

/// After the change of state that a run ends with no other is waited for, and a few events are
/// left.
proof fn lemma_after_end(trace: TraceState, events: Seq<Event>, end: int)
    requires
        are_accepted(trace, events),
        0 <= end < events.len(),
        tells_end(events[end], trace.pid),
    ensures
        events.len() - end - 1 + events_left(after(trace, events).run.phase) <= 4,
        forall|i: int| 0 <= i < events.len() && i != end ==> !tells_end(
            #[trigger] events[i],
            trace.pid,
        ),
        forall|i: int| end < i < events.len() ==> !(#[trigger] events[i] is Status),
    decreases events.len(),
{
    let rest = events.drop_last();
    let before = after(trace, rest);
    lemma_closing(trace, rest);
    lemma_event(before, events.last());
    if end < rest.len() {
        assert(tells_end(rest[end], trace.pid));
        lemma_after_end(trace, rest, end);
        assert(has_ended(rest, trace.pid));
        assert forall|i: int| end < i < events.len() implies !(#[trigger] events[i] is Status) by {
            if i < rest.len() {
                assert(!(rest[i] is Status));
            }
        }
        assert forall|i: int| 0 <= i < events.len() && i != end implies !tells_end(
            #[trigger] events[i],
            trace.pid,
        ) by {
            if i < rest.len() {
                assert(!tells_end(rest[i], trace.pid));
            }
        }
    } else {
        assert(!is_closing(before, trace.pid));
        assert forall|i: int| 0 <= i < events.len() && i != end implies !tells_end(
            #[trigger] events[i],
            trace.pid,
        ) by {
            assert(rest[i] == events[i]);
            if tells_end(rest[i], trace.pid) {
                assert(has_ended(rest, trace.pid));
            }
        }
    }
}

/// A run ends well exactly with the first exit of the process that was started, or with the first
/// process that is killed. Before that it does not end but for an error. From then on it waits
/// for nothing more: it takes four events at most, each of which can tell that what was asked for
/// is done, and it ends well unless what was asked for last has failed.
pub proof fn run_ends_with_first_exit_or_kill(trace: TraceState, events: Seq<Event>)
    requires
        are_accepted(trace, events),
    ensures
        ({
            let step = after(trace, events);
            &&& step.action is Finish ==> has_ended(events, trace.pid)
            &&& has_ended(events, trace.pid) ==> {
                &&& !(step.action is Wait)
                &&& !(step.run.phase is Finished) ==> model::is_answer(step.run.phase, Event::Done)
                &&& step.run.phase is Finished && !(events.last() is Failed) ==> step.action
                    is Finish
            }
            &&& !has_ended(events, trace.pid) && step.run.phase is Finished ==> step.action is Fail
                || step.action is Propagate
            &&& forall|end: int|
                0 <= end < events.len() && tells_end(#[trigger] events[end], trace.pid) ==> {
                    &&& events.len() <= end + 5
                    &&& events.len() == end + 5 ==> step.run.phase is Finished
                    &&& forall|i: int| end < i < events.len() ==> !(#[trigger] events[i] is Status)
                }
        }),
{
    let step = after(trace, events);
    lemma_closing(trace, events);
    assert forall|end: int|
        0 <= end < events.len() && tells_end(#[trigger] events[end], trace.pid) implies {
        &&& events.len() <= end + 5
        &&& events.len() == end + 5 ==> step.run.phase is Finished
        &&& forall|i: int| end < i < events.len() ==> !(#[trigger] events[i] is Status)
    } by {
        lemma_after_end(trace, events, end);
    }
    if step.action is Wait && has_ended(events, trace.pid) {
        lemma_wait_is_waiting(trace, events);
    }
}

/// A run asks to wait if and only if it waits.
proof fn lemma_wait_is_waiting(trace: TraceState, events: Seq<Event>)
    requires
        are_accepted(trace, events),
    ensures
        after(trace, events).action is Wait <==> after(trace, events).run.phase is Waiting,
{
}

proof fn lemma_options(trace: TraceState, events: Seq<Event>)
    requires
        are_accepted(trace, events),
    ensures
        ({
            let step = after(trace, events);
            &&& events.len() == 0 <==> step.run.phase is Waiting && !step.run.options_initialized
            &&& events.len() > 0 ==> step.run.options_initialized || step.run.phase
                is SettingOptions || step.run.phase is Finished
            &&& step.run.phase is SettingOptions ==> events.len() == 1
            &&& step.trace.pid == trace.pid
            &&& step.trace.follow_forks == trace.follow_forks
        }),
    decreases events.len(),
{
    if events.len() > 0 {
        lemma_options(trace, events.drop_last());
    }
}

/// The options of the tracee are asked for once in a whole run, when the first change of state
/// is told, and in the way that the tracer was made for.
pub proof fn options_are_asked_for_once(trace: TraceState, events: Seq<Event>, n: int)
    requires
        are_accepted(trace, events),
        0 < n <= events.len(),
    ensures
        ({
            let action = after(trace, events.take(n)).action;
            &&& action is InitOptions <==> n == 1 && events[0] is Status
            &&& action is InitOptions ==> action == (Action::InitOptions {
                pid: trace.pid,
                follow_forks: trace.follow_forks,
            })
            &&& n > 1 ==> events[0] is Status
        }),
{
    lemma_accepted_before(trace, events, n);
    let taken = events.take(n);
    let rest = taken.drop_last();
    assert(rest =~= events.take(n - 1));
    lemma_options(trace, rest);
    lemma_options(trace, taken);
    assert(taken.last() == events[n - 1]);
    if n > 1 {
        lemma_accepted_before(trace, events, 1);
        lemma_accepted_before(trace, events, 2);
        let first = events.take(1);
        assert(first.drop_last() =~= Seq::empty());
        assert(first.last() == events[0]);
        assert(events.take(2).drop_last() =~= first);
        if events[0] is Failed {
            assert(after(trace, first).run.phase is Finished);
        }
    }
}

/// What can be handled to the end can be handled up to any point.
proof fn lemma_accepted_before(trace: TraceState, events: Seq<Event>, n: int)
    requires
        are_accepted(trace, events),
        0 <= n <= events.len(),
    ensures
        are_accepted(trace, events.take(n)),
    decreases events.len(),
{
    if n == events.len() {
        assert(events.take(n) =~= events);
    } else {
        lemma_accepted_before(trace, events.drop_last(), n);
        assert(events.drop_last().take(n) =~= events.take(n));
    }
}

/// What was recorded at any point of a run is there at every later point, in its place; and there
/// are no more records than events.
pub proof fn records_stay(trace: TraceState, events: Seq<Event>, n: int)
    requires
        0 <= n <= events.len(),
    ensures
        after(trace, events.take(n)).trace.infos.is_prefix_of(after(trace, events).trace.infos),
        after(trace, events).trace.infos.len() <= after(trace, events.take(n)).trace.infos.len()
            + events.len() - n,
    decreases events.len(),
{
    if n == events.len() {
        assert(events.take(n) =~= events);
    } else {
        let rest = events.drop_last();
        records_stay(trace, rest, n);
        assert(rest.take(n) =~= events.take(n));
        let before = after(trace, rest);
        laws::records_only_grow(before.trace, before.run, events.last());
        lemma_prefix(
            after(trace, events.take(n)).trace.infos,
            before.trace.infos,
            after(trace, events).trace.infos,
        );
    }
}

/// What begins a sequence begins it still when one more element is added.
proof fn lemma_prefix(start: Seq<InfoView>, infos: Seq<InfoView>, more: Seq<InfoView>)
    requires
        start.is_prefix_of(infos),
        more == infos || more == infos.push(more.last()),
    ensures
        start.is_prefix_of(more),
{
    assert(more.subrange(0, start.len() as int) =~= infos.subrange(0, start.len() as int));
}

/// A tracer and its run stay consistent from the first event on: every process that is followed
/// has a table of descriptors.
pub proof fn followed_processes_have_tables(trace: TraceState, events: Seq<Event>, pid: i32)
    requires
        trace.is_valid(),
        are_accepted(trace, events),
    ensures
        model::is_consistent(after(trace, events).trace, after(trace, events).run),
        after(trace, events).run.start_times.contains_key(pid) ==> after(
            trace,
            events,
        ).trace.tables.contains_key(pid),
    decreases events.len(),
{
    if events.len() > 0 {
        let rest = events.drop_last();
        followed_processes_have_tables(trace, rest, pid);
        let before = after(trace, rest);
        model::lemma_next_is_consistent(before.trace, before.run, events.last());
    }
}

} // verus!
