//! What holds of the tracer as a whole.

use vstd::prelude::*;

use crate::descriptors;
use crate::model;
use crate::model::{RunState, Step, TraceState};
use crate::protocol::{
    Action, Event, Line, LogEntry, LogRequest, Phase, Timestamp, TraceError, WaitStatus,
    PTRACE_EVENT_EXEC, PTRACE_SYSCALL_INFO_EXIT, SIGSTOP, SIGTRAP,
};
use crate::summary;
use crate::syscall_info;
use crate::syscall_info::{FdType, InfoView, Registers, RetCode, SyscallArg, SyscallArgs};
use crate::sysno;
use crate::sysno::{SyscallStats, CLOSE, EXECVE, OPENAT, READ, WRITE};

verus! {

/// The call gives `fd` a new meaning, or takes its meaning away.
pub open spec fn rebinds(sysno: u32, args: Seq<SyscallArg>, result: RetCode, fd: i32) -> bool {
    if descriptors::is_open_call(sysno) {
        descriptors::opened_fd(result) == fd
    } else if sysno == CLOSE {
        descriptors::int_arg(args, 0) == fd
    } else {
        descriptors::duplicates(sysno, args) && descriptors::duplicated_fd(result) == fd
    }
}

/// A descriptor stands for the same file until a call closes it, or returns it anew.
pub proof fn descriptor_stays(
    fds: Map<i32, FdType>,
    sysno: u32,
    args: Seq<SyscallArg>,
    result: RetCode,
    fd: i32,
)
    requires
        fd >= 0,
        !rebinds(sysno, args, result, fd),
    ensures
        descriptors::fds_after(fds, sysno, args, result).get(fd) == fds.get(fd),
{
}

/// A call that fails, and one that neither opens, closes nor duplicates a file, leaves the
/// descriptors as they are.
pub proof fn descriptors_unchanged(
    fds: Map<i32, FdType>,
    sysno: u32,
    args: Seq<SyscallArg>,
    result: RetCode,
)
    requires
        sysno != CLOSE,
        (result matches RetCode::Failure(errno) && errno < 0) || !(descriptors::is_open_call(sysno)
            || descriptors::duplicates(sysno, args)),
    ensures
        descriptors::fds_after(fds, sysno, args, result) == fds,
{
}

/// A descriptor that was closed stands for nothing.
pub proof fn closed_descriptor_is_forgotten(
    fds: Map<i32, FdType>,
    args: Seq<SyscallArg>,
    result: RetCode,
)
    requires
        descriptors::call_is_valid(fds, CLOSE, args, result),
    ensures
        !descriptors::fds_after(fds, CLOSE, args, result).contains_key(
            descriptors::int_arg(args, 0),
        ),
{
}

/// A duplicate stands for what the descriptor that it was made from stands for, and goes on
/// doing so when that one is closed.
pub proof fn duplicate_outlives_original(
    fds: Map<i32, FdType>,
    sysno: u32,
    args: Seq<SyscallArg>,
    result: RetCode,
    close_args: Seq<SyscallArg>,
    close_result: RetCode,
)
    requires
        descriptors::duplicates(sysno, args),
        descriptors::duplicated_fd(result) >= 0,
        descriptors::call_is_valid(fds, sysno, args, result),
        descriptors::int_arg(close_args, 0) == descriptors::int_arg(args, 0),
        descriptors::duplicated_fd(result) != descriptors::int_arg(args, 0),
    ensures
        descriptors::fds_after(
            descriptors::fds_after(fds, sysno, args, result),
            CLOSE,
            close_args,
            close_result,
        ).get(descriptors::duplicated_fd(result) as i32) == fds.get(descriptors::int_arg(args, 0)),
{
}

/// Two tables agree on every descriptor but one.
pub open spec fn agree_but_at(a: Map<i32, FdType>, b: Map<i32, FdType>, touched: i32) -> bool {
    forall|fd: i32| fd != touched ==> #[trigger] a.get(fd) == b.get(fd)
}

/// A call has an effect on one descriptor of its own process at most: every process keeps its
/// table, the tables of the others stay as they are, and nothing else changes.
pub proof fn call_affects_one_descriptor_at_most(trace: TraceState, info: InfoView)
    requires
        trace.tables.contains_key(info.pid),
    ensures
        ({
            let after = model::with_effect(trace, info);
            &&& after.tables.dom() == trace.tables.dom()
            &&& forall|pid: i32|
                pid != info.pid ==> #[trigger] after.tables.get(pid) == trace.tables.get(pid)
            &&& exists|touched: i32| #[trigger]
                agree_but_at(after.tables[info.pid], trace.tables[info.pid], touched)
            &&& after == (TraceState { tables: after.tables, ..trace })
        }),
{
    let after = model::with_effect(trace, info);
    assert(after.tables.dom() =~= trace.tables.dom());
    let touched: i32 = if descriptors::is_open_call(info.syscall) {
        descriptors::opened_fd(info.result) as i32
    } else if info.syscall == CLOSE {
        descriptors::int_arg(info.args, 0)
    } else {
        descriptors::duplicated_fd(info.result) as i32
    };
    assert(agree_but_at(after.tables[info.pid], trace.tables[info.pid], touched));
}

/// A call, as it is recorded.
pub struct Call {
    pub pid: i32,
    pub sysno: u32,
    pub args: Seq<SyscallArg>,
    pub code: RetCode,
    pub duration: u128,
}

/// The calls can be recorded, one after the other.
pub open spec fn are_storable(trace: TraceState, calls: Seq<Call>) -> bool
    decreases calls.len(),
{
    calls.len() > 0 ==> {
        let before = calls.drop_last();
        let call = calls.last();
        &&& are_storable(trace, before)
        &&& model::is_storable(
            stored_all(trace, before),
            call.pid,
            call.sysno,
            call.args,
            call.code,
        )
    }
}

/// The tracer after the calls were made, one after the other.
pub open spec fn stored_all(trace: TraceState, calls: Seq<Call>) -> TraceState
    decreases calls.len(),
{
    if calls.len() == 0 {
        trace
    } else {
        let before = stored_all(trace, calls.drop_last());
        let call = calls.last();
        model::stored(
            before,
            model::info_of(before, call.pid, call.sysno, call.args, call.code, call.duration),
        )
    }
}

/// The call takes the meaning of a descriptor of a process away, or gives it a new one.
pub open spec fn interferes(call: Call, pid: i32, fd: i32) -> bool {
    call.pid == pid && rebinds(call.sysno, call.args, call.code, fd)
}

proof fn lemma_stored_all(trace: TraceState, calls: Seq<Call>, pid: i32, fd: i32)
    requires
        trace.is_valid(),
        trace.tables.contains_key(pid),
        are_storable(trace, calls),
        fd >= 0,
        forall|i: int| 0 <= i < calls.len() ==> !interferes(#[trigger] calls[i], pid, fd),
    ensures
        stored_all(trace, calls).is_valid(),
        stored_all(trace, calls).tables.contains_key(pid),
        stored_all(trace, calls).tables[pid].get(fd) == trace.tables[pid].get(fd),
    decreases calls.len(),
{
    if calls.len() > 0 {
        let rest = calls.drop_last();
        let call = calls.last();
        assert forall|i: int| 0 <= i < rest.len() implies !interferes(
            #[trigger] rest[i],
            pid,
            fd,
        ) by {
            assert(rest[i] == calls[i]);
        }
        lemma_stored_all(trace, rest, pid, fd);
        let before = stored_all(trace, rest);
        assert(calls[calls.len() - 1] == call);
        model::lemma_stored_is_valid(
            before,
            call.pid,
            call.sysno,
            call.args,
            call.code,
            call.duration,
        );
    }
}

/// What a process reads or writes through a descriptor is reported under the path that it opened
/// the descriptor with, whatever other calls come between, of this process or of others, unless
/// one of this process closes the descriptor or returns it anew.
pub proof fn activity_is_reported_under_opened_path(
    trace: TraceState,
    open: Call,
    between: Seq<Call>,
    used: Call,
)
    requires
        trace.is_valid(),
        descriptors::is_open_call(open.sysno),
        descriptors::opened_fd(open.code) >= 0,
        are_storable(trace, seq![open]),
        are_storable(stored_all(trace, seq![open]), between),
        forall|i: int|
            0 <= i < between.len() ==> !interferes(
                #[trigger] between[i],
                open.pid,
                descriptors::opened_fd(open.code) as i32,
            ),
        used.pid == open.pid,
        used.sysno == READ && (used.code matches RetCode::Success(count) && count >= 1)
            || used.sysno == WRITE,
        descriptors::has_int(used.args, 0),
        descriptors::int_arg(used.args, 0) == descriptors::opened_fd(open.code),
    ensures
        ({
            let path = open.args[descriptors::path_index(open.sysno)]->Str_0;
            let before = stored_all(stored_all(trace, seq![open]), between);
            let after = stored_all(before, seq![used]);
            &&& used.sysno == READ ==> model::read_files(after.infos) == model::read_files(
                before.infos,
            ).push(path)
            &&& used.sysno == WRITE ==> model::written_files(after.infos) == model::written_files(
                before.infos,
            ).push(path)
        }),
{
    let pid = open.pid;
    let fd = descriptors::opened_fd(open.code) as i32;
    assert(seq![open].drop_last() =~= Seq::empty());
    assert(seq![open].last() == open);
    assert(stored_all(trace, Seq::empty()) == trace);
    assert(stored_all(trace, seq![open].drop_last()) == trace);
    let opened = stored_all(trace, seq![open]);
    assert(opened == model::stored(
        trace,
        model::info_of(trace, pid, open.sysno, open.args, open.code, open.duration),
    ));
    model::lemma_stored_is_valid(trace, pid, open.sysno, open.args, open.code, open.duration);
    lemma_stored_all(opened, between, pid, fd);
    let before = stored_all(opened, between);
    assert(seq![used].drop_last() =~= Seq::empty());
    assert(stored_all(before, seq![used].drop_last()) == before);
    let after = stored_all(before, seq![used]);
    assert(after.infos.drop_last() =~= before.infos);
    assert(opened.tables[pid].contains_key(fd));
    assert(before.tables[pid].get(fd) == opened.tables[pid].get(fd));
    assert(before.tables[pid].contains_key(fd));
}

proof fn lemma_path_is_listed(
    infos: Seq<InfoView>,
    path_of: spec_fn(InfoView) -> Option<String>,
    i: int,
)
    requires
        0 <= i < infos.len(),
        path_of(infos[i]) is Some,
    ensures
        model::paths(infos, path_of).contains(path_of(infos[i])->0),
    decreases infos.len(),
{
    let rest = infos.drop_last();
    let before = model::paths(rest, path_of);
    let all = model::paths(infos, path_of);
    if i == infos.len() - 1 {
        assert(all[before.len() as int] == path_of(infos[i])->0);
    } else {
        lemma_path_is_listed(rest, path_of, i);
        assert(rest[i] == infos[i]);
        let k = choose|k: int| 0 <= k < before.len() && before[k] == path_of(infos[i])->0;
        assert(all[k] == before[k]);
    }
}

proof fn lemma_listed_path_has_call(
    infos: Seq<InfoView>,
    path_of: spec_fn(InfoView) -> Option<String>,
    path: String,
)
    requires
        model::paths(infos, path_of).contains(path),
    ensures
        exists|i: int| 0 <= i < infos.len() && path_of(#[trigger] infos[i]) == Some(path),
    decreases infos.len(),
{
    if infos.len() > 0 {
        let rest = infos.drop_last();
        let before = model::paths(rest, path_of);
        if path_of(infos.last()) == Some(path) {
            assert(path_of(infos[infos.len() - 1]) == Some(path));
        } else {
            let all = model::paths(infos, path_of);
            let k = choose|k: int| 0 <= k < all.len() && all[k] == path;
            assert(before[k] == path);
            lemma_listed_path_has_call(rest, path_of, path);
            let i = choose|i: int| 0 <= i < rest.len() && path_of(#[trigger] rest[i]) == Some(path);
            assert(infos[i] == rest[i]);
        }
    }
}

/// Every attempt to open a file with `openat` is listed, whether it succeeded or not.
pub proof fn attempts_to_open_are_listed(infos: Seq<InfoView>, i: int)
    requires
        0 <= i < infos.len(),
        infos[i].syscall == OPENAT,
        descriptors::has_str(infos[i].args, 1),
    ensures
        model::opened_files(infos).contains(infos[i].args[1]->Str_0),
{
    lemma_path_is_listed(infos, |info: InfoView| model::opened_path(info), i);
}

/// A file that is listed as read or as written to was opened by an earlier call.
pub proof fn used_files_were_opened(trace: TraceState, path: String)
    requires
        trace.is_valid(),
        model::read_files(trace.infos).contains(path) || model::written_files(
            trace.infos,
        ).contains(path),
    ensures
        exists|i: int, k: int|
            0 <= i < k < trace.infos.len() && model::opened(#[trigger] trace.infos[i], path)
                && #[trigger] model::file_behind(trace.infos[k]) == Some(path),
{
    if model::read_files(trace.infos).contains(path) {
        lemma_listed_path_has_call(trace.infos, |info: InfoView| model::read_path(info), path);
    } else {
        lemma_listed_path_has_call(trace.infos, |info: InfoView| model::written_path(info), path);
    }
    let k = choose|k: int|
        0 <= k < trace.infos.len() && model::file_behind(#[trigger] trace.infos[k]) == Some(path);
    let info = trace.infos[k];
    let fd = descriptors::int_arg(info.args, 0);
    assert(model::are_opened(trace.infos.take(k), info.fds));
    assert(info.fds.contains_key(fd));
    let i = choose|i: int|
        0 <= i < trace.infos.take(k).len() && model::opened(#[trigger] trace.infos.take(k)[i], path);
    assert(trace.infos[i] == trace.infos.take(k)[i]);
}

/// Every call that read at least one byte of a file is listed under the path of the file.
pub proof fn reads_are_listed(infos: Seq<InfoView>, i: int)
    requires
        0 <= i < infos.len(),
        model::reads_some(infos[i]),
        model::file_behind(infos[i]) is Some,
    ensures
        model::read_files(infos).contains(model::file_behind(infos[i])->0),
{
    lemma_path_is_listed(infos, |info: InfoView| model::read_path(info), i);
}

/// Every call that wrote to a file is listed under the path of the file.
pub proof fn writes_are_listed(infos: Seq<InfoView>, i: int)
    requires
        0 <= i < infos.len(),
        infos[i].syscall == WRITE,
        model::file_behind(infos[i]) is Some,
    ensures
        model::written_files(infos).contains(model::file_behind(infos[i])->0),
{
    lemma_path_is_listed(infos, |info: InfoView| model::written_path(info), i);
}

/// How many steps at most are left before a run waits again or is over.
pub open spec fn steps_left(phase: Phase) -> nat {
    match phase {
        Phase::Waiting => 0,
        Phase::Finished => 0,
        Phase::Resuming { .. } => 1,
        Phase::Continuing => 1,
        Phase::Reporting => 1,
        Phase::SummaryGap => 2,
        Phase::Attaching { .. } => 2,
        Phase::Warning { .. } => 2,
        Phase::LogArgs { .. } => 2,
        Phase::ExecArgs { .. } => 2,
        Phase::EntryArgs { .. } => 2,
        Phase::LogOutput { .. } => 3,
        Phase::ExecRegisters { .. } => 3,
        Phase::EntryRegisters { .. } => 3,
        Phase::Terminating => 3,
        Phase::LogRegisters { .. } => 4,
        Phase::TrapArgs { .. } => 5,
        Phase::ExitRegisters { .. } => 5,
        Phase::EventMessage { .. } => 5,
        Phase::TrapRegisters { .. } => 6,
        Phase::SettingOptions { .. } => 7,
    }
}

/// What a change of state leads to comes to an end: each step leaves fewer to make, until the
/// run waits for the next change of state or is over.
pub proof fn every_status_is_handled_in_bounded_steps(
    trace: TraceState,
    run: RunState,
    event: Event,
)
    requires
        model::is_answer(run.phase, event),
        !(run.phase is Waiting),
    ensures
        steps_left(model::next(trace, run, event).run.phase) < steps_left(run.phase),
{
}

/// The process whose stop is being handled.
pub open spec fn subject(phase: Phase) -> Option<i32> {
    match phase {
        Phase::TrapRegisters { pid, .. } => Some(pid),
        Phase::TrapArgs { pid, .. } => Some(pid),
        Phase::LogRegisters { request } => Some(request.pid),
        Phase::LogOutput { entry } => Some(entry.pid),
        Phase::LogArgs { pid, .. } => Some(pid),
        Phase::Warning { pid, .. } => Some(pid),
        Phase::ExecRegisters { pid } => Some(pid),
        Phase::ExecArgs { pid } => Some(pid),
        Phase::ExitRegisters { pid } => Some(pid),
        Phase::EventMessage { pid } => Some(pid),
        Phase::EntryRegisters { pid } => Some(pid),
        Phase::EntryArgs { pid } => Some(pid),
        Phase::Attaching { pid } => Some(pid),
        Phase::Resuming { pid } => Some(pid),
        _ => None,
    }
}

/// A process that stopped is resumed, and no other, before the run waits again: while its stop
/// is handled each step goes on with the same process, up to the one that resumes it, unless
/// the run ends.
#[verifier::rlimit(60)]
pub proof fn stopped_process_is_resumed(trace: TraceState, run: RunState, event: Event)
    requires
        model::is_answer(run.phase, event),
        subject(run.phase) is Some,
        !(run.phase is Resuming),
    ensures
        ({
            let step = model::next(trace, run, event);
            &&& step.run.phase is Finished || subject(step.run.phase) == subject(run.phase)
            &&& step.action matches Action::Resume { pid, .. } ==> Some(pid) == subject(run.phase)
            &&& !(step.action is Wait)
            &&& step.run.phase is Resuming <==> step.action is Resume
        }),
{
    match run.phase {
        Phase::LogRegisters { request } => {
            assert(event is Registers);
        },
        Phase::LogOutput { entry } => {
            assert(event is Done || event is Failed);
        },
        _ => {},
    }
}

/// A stop of a process is handled for that process, or answered at once: by resuming it, or by
/// handing it the signal.
pub proof fn stop_is_taken_up(trace: TraceState, run: RunState, status: WaitStatus, stopped: i32)
    requires
        match status {
            WaitStatus::Stopped { pid, .. } => pid == stopped,
            WaitStatus::PtraceEvent { pid, .. } => pid == stopped,
            WaitStatus::PtraceSyscall { pid } => pid == stopped,
            _ => false,
        },
    ensures
        ({
            let step = model::on_status(trace, run, status);
            ||| subject(step.run.phase) == Some(stopped)
            ||| (step.action matches Action::Continue { pid, .. } && pid == stopped)
        }),
{
}

/// A signal that is not part of the tracing reaches the process that it was sent to.
pub proof fn signals_reach_the_tracee(trace: TraceState, run: RunState, stopped: i32, signal: i32)
    requires
        signal != SIGTRAP,
        signal != SIGSTOP,
    ensures
        ({
            let action = model::on_stopped(trace, run, stopped, signal).action;
            ||| action == (Action::Continue { pid: stopped, signal })
            ||| action == (Action::Resume { pid: stopped, deliver: Some(signal) })
        }),
{
}

/// The options of the tracee are set once, before the first change of state is handled.
pub proof fn options_are_set_first_and_once(trace: TraceState, run: RunState, event: Event)
    requires
        run.is_valid(),
        model::is_answer(run.phase, event),
    ensures
        ({
            let step = model::next(trace, run, event);
            &&& step.action is InitOptions <==> event is Status && !run.options_initialized
            &&& run.options_initialized ==> step.run.options_initialized
            &&& run.phase is SettingOptions && event is Done ==> step.run.options_initialized
        }),
{
}

/// A run ends well only when the process that was started exits, or when one is killed.
pub proof fn run_ends_with_tracee(trace: TraceState, run: RunState, status: WaitStatus)
    ensures
        ({
            let step = model::on_status(trace, run, status);
            step.run.phase is Finished || step.run.phase is Reporting || step.run.phase
                is SummaryGap || step.run.phase is Terminating <==> (status matches
                WaitStatus::Exited { pid, .. } && pid == trace.pid) || status is Signaled
        }),
{
}

/// A summary is written at the end if and only if one is wanted, and it is set off from what
/// comes before it where calls are recorded.
pub proof fn summary_is_written_on_request(trace: TraceState, run: RunState)
    ensures
        ({
            let step = model::finish(trace, run);
            let wanted = !trace.report.json && (trace.report.summary || trace.report.summary_only);
            &&& !wanted ==> step.action is Finish
            &&& wanted && trace.report.summary_only ==> step.action == (Action::Report {
                gap: false,
            })
            &&& wanted && !trace.report.summary_only ==> {
                &&& step.action == Action::Write(Line::Blank)
                &&& model::next(step.trace, step.run, Event::Done).action == (Action::Report {
                    gap: true,
                })
            }
        }),
{
}

/// What was recorded stays as it is, and a step adds one record at most.
pub proof fn records_only_grow(trace: TraceState, run: RunState, event: Event)
    ensures
        ({
            let after = model::next(trace, run, event).trace.infos;
            after == trace.infos || after == trace.infos.push(after.last())
        }),
{
}

/// Where only a summary is wanted, no call is recorded but a successful `exec`.
pub proof fn summary_only_records_nothing_else(trace: TraceState, run: RunState, event: Event)
    requires
        trace.report.summary_only,
        !(run.phase is LogArgs),
    ensures
        ({
            let step = model::next(trace, run, event);
            &&& !(step.run.phase is LogArgs)
            &&& step.trace.infos != trace.infos ==> {
                &&& step.trace.infos.last().syscall == EXECVE
                &&& step.trace.infos.last().result == RetCode::Success(0)
            }
        }),
{
}

/// At the start of a call nothing is counted or recorded.
pub proof fn starts_of_calls_are_not_logged(trace: TraceState, run: RunState, event: Event)
    requires
        model::is_answer(run.phase, event),
        run.phase is EntryRegisters || run.phase is EntryArgs || (run.phase is EventMessage && !(
        event matches Event::Message { message, .. } && message as u8
            == PTRACE_SYSCALL_INFO_EXIT)),
    ensures
        model::next(trace, run, event).trace == trace,
        !(model::next(trace, run, event).run.phase is LogRegisters),
{
}

/// A call that has ended is recorded with its number, its outcome, its duration and the
/// arguments that are read for it, and with the descriptors that were held before it; only a
/// failed attempt to run a program may be held back.
pub proof fn ended_call_is_recorded(
    trace: TraceState,
    run: RunState,
    request: LogRequest,
    registers: Registers,
    args: SyscallArgs,
    sysno: u32,
)
    requires
        run.phase == (Phase::LogRegisters { request }),
        request.args is None,
        !trace.report.summary_only,
        model::syscall_of(registers) == Ok::<u32, TraceError>(sysno),
        !model::is_collapsed(trace, sysno, model::outcome(sysno, registers)),
    ensures
        ({
            let step = model::next(trace, run, Event::Registers(Some(registers)));
            let asked = if step.action is Write {
                model::next(step.trace, step.run, Event::Done)
            } else {
                step
            };
            let done = model::next(asked.trace, asked.run, Event::Args(args));
            &&& asked.action == (Action::ParseArgs {
                pid: request.pid,
                sysno,
                registers: match request.entry_regs {
                    Some(entry_regs) => entry_regs,
                    None => registers,
                },
            })
            &&& done.trace.infos == trace.infos.push(
                model::info_of(
                    trace,
                    request.pid,
                    sysno,
                    args.0@,
                    model::outcome(sysno, registers),
                    model::elapsed(request.timing),
                ),
            )
            &&& done.action == (Action::Resume { pid: request.pid, deliver: None })
        }),
{
}

/// The number of times that a call was counted.
pub open spec fn times_counted(trace: TraceState, sysno: u32) -> int {
    trace.stats[sysno].pass + trace.stats[sysno].fail
}

/// A call to exit is never counted.
pub proof fn exits_are_not_counted(trace: TraceState, run: RunState, event: Event, sysno: u32)
    requires
        sysno::is_exit(sysno),
        model::is_acceptable(trace, run, event),
    ensures
        ({
            let after = model::next(trace, run, event).trace.stats[sysno];
            after.pass == trace.stats[sysno].pass && after.fail == trace.stats[sysno].fail
        }),
{
}

/// A call is counted once, when it is logged: as failed where its outcome is a failure, and
/// otherwise as passed; nothing else is counted with it.
pub proof fn logged_call_is_counted_once(
    trace: TraceState,
    run: RunState,
    event: Event,
    sysno: u32,
)
    requires
        model::is_acceptable(trace, run, event),
    ensures
        ({
            let after = model::next(trace, run, event).trace;
            let counts = run.phase is LogRegisters && (event matches Event::Registers(
                Some(registers),
            ) && model::syscall_of(registers) == Ok::<u32, TraceError>(sysno))
                && !sysno::is_exit(sysno);
            &&& counts ==> times_counted(after, sysno) == times_counted(trace, sysno) + 1
            &&& !counts ==> {
                &&& after.stats[sysno].pass == trace.stats[sysno].pass
                &&& after.stats[sysno].fail == trace.stats[sysno].fail
            }
            &&& counts ==> (after.stats[sysno].fail == trace.stats[sysno].fail + 1 <==> (event
                matches Event::Registers(Some(registers)) && syscall_info::ret_code(
                registers.rax,
            ) is Failure))
        }),
{
}

proof fn lemma_options_stay(trace: TraceState, run: RunState, event: Event)
    requires
        model::is_acceptable(trace, run, event),
    ensures
        ({
            let after = model::next(trace, run, event).trace;
            &&& after.pid == trace.pid
            &&& after.follow_forks == trace.follow_forks
            &&& after.collapse_exec_retries == trace.collapse_exec_retries
            &&& after.report == trace.report
            &&& trace.tables.dom().subset_of(after.tables.dom())
        }),
{
}

proof fn lemma_time_grows(trace: TraceState, run: RunState, event: Event, id: u32)
    requires
        model::is_acceptable(trace, run, event),
    ensures
        model::next(trace, run, event).trace.stats[id].time >= trace.stats[id].time,
{
}

proof fn lemma_counts_grow(trace: TraceState, run: RunState, event: Event, id: u32)
    requires
        model::is_acceptable(trace, run, event),
    ensures
        ({
            let after = model::next(trace, run, event).trace;
            &&& after.stats[id].pass >= trace.stats[id].pass
            &&& after.stats[id].fail >= trace.stats[id].fail
        }),
{
}

proof fn lemma_total_grows(trace: TraceState, run: RunState, event: Event)
    requires
        model::is_acceptable(trace, run, event),
    ensures
        ({
            let after = model::next(trace, run, event).trace;
            &&& summary::total_calls(after.stats) <= summary::total_calls(trace.stats) + 1
            &&& !(run.phase is LogRegisters) ==> summary::total_calls(after.stats)
                == summary::total_calls(trace.stats)
        }),
{
    let after = model::next(trace, run, event).trace.stats;
    let counted: u32 = match event {
        Event::Registers(Some(registers)) => match model::syscall_of(registers) {
            Ok(sysno) => sysno,
            Err(_) => 0,
        },
        _ => 0,
    };
    assert forall|id: u32| id != counted implies summary::calls_of(#[trigger] after[id])
        == summary::calls_of(trace.stats[id]) by {
        logged_call_is_counted_once(trace, run, event, id);
    }
    logged_call_is_counted_once(trace, run, event, counted);
    lemma_total_of_one(trace.stats, after, counted);
}

/// Where only one call is counted anew, the total grows by as much.
proof fn lemma_total_of_one(
    before: Map<u32, SyscallStats>,
    after: Map<u32, SyscallStats>,
    counted: u32,
)
    requires
        forall|id: u32|
            id != counted ==> summary::calls_of(#[trigger] after[id]) == summary::calls_of(
                before[id],
            ),
        summary::calls_of(after[counted]) >= summary::calls_of(before[counted]),
    ensures
        summary::total_calls(before) <= summary::total_calls(after) <= summary::total_calls(before)
            + summary::calls_of(after[counted]) - summary::calls_of(before[counted]),
{
    sysno::lemma_sysnos();
    summary::lemma_sum_grows(
        sysno::sysnos(),
        |id: u32| summary::calls_of(before[id]),
        |id: u32| summary::calls_of(after[id]),
        counted,
    );
}

/// A step only adds: what was recorded, counted and timed stays, no more than one call is
/// counted, and only when it is logged; every process keeps its table, and the options stay.
pub proof fn steps_only_add(trace: TraceState, run: RunState, event: Event)
    requires
        model::is_acceptable(trace, run, event),
    ensures
        ({
            let after = model::next(trace, run, event).trace;
            &&& after.pid == trace.pid
            &&& after.follow_forks == trace.follow_forks
            &&& after.collapse_exec_retries == trace.collapse_exec_retries
            &&& after.report == trace.report
            &&& after.infos == trace.infos || after.infos == trace.infos.push(after.infos.last())
            &&& trace.tables.dom().subset_of(after.tables.dom())
            &&& forall|id: u32| #[trigger]
                sysno::is_sysno(id) ==> {
                    &&& after.stats[id].pass >= trace.stats[id].pass
                    &&& after.stats[id].fail >= trace.stats[id].fail
                    &&& after.stats[id].time >= trace.stats[id].time
                }
            &&& summary::total_calls(after.stats) <= summary::total_calls(trace.stats) + 1
            &&& !(run.phase is LogRegisters) ==> summary::total_calls(after.stats)
                == summary::total_calls(trace.stats)
        }),
{
    lemma_options_stay(trace, run, event);
    records_only_grow(trace, run, event);
    assert forall|id: u32| #[trigger] sysno::is_sysno(id) implies {
        let after = model::next(trace, run, event).trace;
        &&& after.stats[id].pass >= trace.stats[id].pass
        &&& after.stats[id].fail >= trace.stats[id].fail
        &&& after.stats[id].time >= trace.stats[id].time
    } by {
        lemma_counts_grow(trace, run, event, id);
        lemma_time_grows(trace, run, event, id);
    }
    lemma_total_grows(trace, run, event);
}

/// The tracer after the same attempt to run a program was logged `n` times.
pub open spec fn after_attempts(trace: TraceState, run: RunState, entry: LogEntry, n: nat) -> TraceState
    decreases n,
{
    if n == 0 {
        trace
    } else {
        model::log_entry(
            after_attempts(trace, run, entry, (n - 1) as nat),
            run,
            entry,
        ).trace
    }
}

/// Failed attempts to run a program are held back on request, whatever the error: none is
/// recorded, no line is written, and their number is kept.
pub proof fn failed_attempts_are_collapsed(
    trace: TraceState,
    run: RunState,
    entry: LogEntry,
    n: nat,
)
    requires
        trace.collapse_exec_retries,
        sysno::is_exec(entry.sysno),
        entry.code is Failure,
        model::retries_of(trace, entry.pid) + n <= usize::MAX,
    ensures
        ({
            let after = after_attempts(trace, run, entry, n);
            &&& after.infos == trace.infos
            &&& after.tables == trace.tables
            &&& model::retries_of(after, entry.pid) == model::retries_of(trace, entry.pid) + n
            &&& after.collapse_exec_retries
            &&& !(model::log_entry(after, run, entry).action is Write)
        }),
    decreases n,
{
    if n > 0 {
        failed_attempts_are_collapsed(trace, run, entry, (n - 1) as nat);
    }
}

/// The attempt that succeeds in the end is preceded by one line with the number of those that
/// failed, which starts over from none.
pub proof fn success_reports_failed_attempts(
    trace: TraceState,
    run: RunState,
    failed: LogEntry,
    n: nat,
    entry: LogEntry,
)
    requires
        !trace.retries.contains_key(failed.pid),
        0 < n <= usize::MAX,
        trace.collapse_exec_retries,
        sysno::is_exec(failed.sysno),
        failed.code is Failure,
        entry.pid == failed.pid,
        sysno::is_exec(entry.sysno),
        !(entry.code is Failure),
    ensures
        ({
            let step = model::log_entry(after_attempts(trace, run, failed, n), run, entry);
            &&& step.action == Action::Write(
                Line::Collapsed { pid: entry.pid, count: n as usize },
            )
            &&& !step.trace.retries.contains_key(entry.pid)
            &&& step.run.phase == (Phase::LogOutput { entry })
        }),
{
    failed_attempts_are_collapsed(trace, run, failed, n);
}

/// A call of `exec` that succeeds is recorded as such, with the arguments that were read when
/// it started.
pub proof fn exec_is_recorded_with_entry_arguments(
    trace: TraceState,
    run: RunState,
    pid: i32,
    args: SyscallArgs,
    signal: i32,
)
    requires
        run.phase == (Phase::EntryArgs { pid }),
        run.options_initialized,
    ensures
        ({
            let entered = model::next(trace, run, Event::Args(args));
            let waiting = model::next(entered.trace, entered.run, Event::Done);
            let event = Event::Status(
                WaitStatus::PtraceEvent { pid, signal, code: PTRACE_EVENT_EXEC },
            );
            let step = model::next(waiting.trace, waiting.run, event);
            &&& entered.action == (Action::Resume { pid, deliver: None })
            &&& waiting.action is Wait
            &&& step.trace.infos == trace.infos.push(
                model::info_of(trace, pid, EXECVE, args.0@, RetCode::Success(0), 0),
            )
            &&& step.action == (Action::Resume { pid, deliver: None })
            &&& model::pending(step.run, pid) is None
        }),
{
}

/// A step changes the start time, the registers and the kept arguments of no process but the one
/// that it is about.
pub proof fn other_processes_are_left_alone(
    trace: TraceState,
    run: RunState,
    event: Event,
    other: i32,
)
    requires
        model::is_answer(run.phase, event),
        subject(run.phase) != Some(other),
        event matches Event::Status(status) ==> !(status matches WaitStatus::Stopped { pid, .. }
            && pid == other) && !(status matches WaitStatus::PtraceEvent { pid, .. } && pid
            == other),
        run.phase matches Phase::SettingOptions { status } ==> !(status matches
            WaitStatus::Stopped { pid, .. } && pid == other) && !(status matches
            WaitStatus::PtraceEvent { pid, .. } && pid == other),
    ensures
        ({
            let after = model::next(trace, run, event).run;
            &&& after.start_times.get(other) == run.start_times.get(other)
            &&& after.entry_regs.get(other) == run.entry_regs.get(other)
            &&& after.pending_args.get(other) == run.pending_args.get(other)
        }),
{
}

/// A call is timed from the stop at its start to the stop at its end.
pub proof fn call_is_timed_from_start_to_end(
    trace: TraceState,
    run: RunState,
    pid: i32,
    entry_message: i64,
    start: Timestamp,
    later: RunState,
    exit_message: i64,
    end: Timestamp,
)
    requires
        run.phase == (Phase::EventMessage { pid }),
        later.phase == (Phase::EventMessage { pid }),
        run.start_times.contains_key(pid),
        entry_message as u8 != PTRACE_SYSCALL_INFO_EXIT,
        exit_message as u8 == PTRACE_SYSCALL_INFO_EXIT,
        later.start_times.get(pid) == model::next(
            trace,
            run,
            Event::Message { message: entry_message, now: start },
        ).run.start_times.get(pid),
    ensures
        model::next(trace, later, Event::Message { message: exit_message, now: end }).run.phase matches Phase::LogRegisters { request }
            && request.timing == Some((start, end)) && request.ends_call,
{
    let entered = model::next(trace, run, Event::Message { message: entry_message, now: start }).run;
    assert(entered.start_times.get(pid) == Some(Some(start)));
}

/// The arguments of a call are read with the registers that its own process had at its start.
pub proof fn call_is_read_with_its_own_registers(
    trace: TraceState,
    run: RunState,
    pid: i32,
    registers: Registers,
    later: RunState,
    exit_message: i64,
    end: Timestamp,
)
    requires
        run.phase == (Phase::EntryRegisters { pid }),
        later.phase == (Phase::EventMessage { pid }),
        later.start_times.contains_key(pid),
        exit_message as u8 == PTRACE_SYSCALL_INFO_EXIT,
        later.entry_regs.get(pid) == model::next(
            trace,
            run,
            Event::Registers(Some(registers)),
        ).run.entry_regs.get(pid),
    ensures
        model::next(trace, later, Event::Message { message: exit_message, now: end }).run.phase
            matches Phase::LogRegisters { request } && request.entry_regs == Some(registers),
{
    let entered = model::next(trace, run, Event::Registers(Some(registers))).run;
    assert(entered.entry_regs.get(pid) == Some(registers));
}

/// A process that is followed stays followed, and one that is not ends the run when it stops
/// at a system call.
pub proof fn followed_processes(trace: TraceState, run: RunState, event: Event, pid: i32)
    requires
        model::is_answer(run.phase, event),
    ensures
        ({
            let after = model::next(trace, run, event);
            &&& run.start_times.contains_key(pid) ==> after.run.start_times.contains_key(pid)
            &&& run.phase == (Phase::EventMessage { pid }) && event is Message
                && !run.start_times.contains_key(pid) ==> after.action == Action::Fail(
                TraceError::NoStartTime { pid },
            )
        }),
{
}

/// A child that stops for the first time is followed if and only if children are followed.
pub proof fn children_are_followed_on_request(trace: TraceState, run: RunState, pid: i32)
    requires
        !run.start_times.contains_key(pid),
    ensures
        model::on_stopped(trace, run, pid, SIGSTOP).run.start_times.contains_key(pid)
            == trace.follow_forks,
{
}

/// What the answer to a step leads to.
pub open spec fn followed_by(step: Step, event: Event) -> Step {
    model::next(step.trace, step.run, event)
}

/// The answer to a step can be handled.
pub open spec fn accepts(step: Step, event: Event) -> bool {
    model::is_acceptable(step.trace, step.run, event)
}

/// What is counted of a call leaves room for one call more of this duration.
pub open spec fn has_room(stats: SyscallStats, duration: u128) -> bool {
    &&& stats.pass < u64::MAX
    &&& stats.fail < u64::MAX
    &&& stats.time + duration <= model::MAX_DURATION
}

/// A call that a followed child has ended is accepted and recorded as the child's, like one of
/// the process that was started.
pub proof fn followed_child_is_recorded(
    trace: TraceState,
    run: RunState,
    request: LogRequest,
    registers: Registers,
    args: SyscallArgs,
    sysno: u32,
)
    requires
        trace.follow_forks,
        model::is_consistent(trace, run),
        run.start_times.contains_key(request.pid),
        run.phase == (Phase::LogRegisters { request }),
        request.args is None,
        !trace.report.summary_only,
        model::syscall_of(registers) == Ok::<u32, TraceError>(sysno),
        sysno::is_sysno(sysno),
        !model::is_collapsed(trace, sysno, model::outcome(sysno, registers)),
        has_room(trace.stats[sysno], model::elapsed(request.timing)),
        descriptors::call_is_valid(
            trace.tables[request.pid],
            sysno,
            args.0@,
            model::outcome(sysno, registers),
        ),
    ensures
        ({
            let step = model::next(trace, run, Event::Registers(Some(registers)));
            let asked = if step.action is Write {
                followed_by(step, Event::Done)
            } else {
                step
            };
            let done = followed_by(asked, Event::Args(args));
            &&& model::is_acceptable(trace, run, Event::Registers(Some(registers)))
            &&& step.action is Write ==> accepts(step, Event::Done)
            &&& accepts(asked, Event::Args(args))
            &&& done.trace.infos == trace.infos.push(
                model::info_of(
                    trace,
                    request.pid,
                    sysno,
                    args.0@,
                    model::outcome(sysno, registers),
                    model::elapsed(request.timing),
                ),
            )
            &&& done.action == (Action::Resume { pid: request.pid, deliver: None })
        }),
{
}

/// The first stop of a child is accepted, and after it the child is followed: it has a table of
/// descriptors, and the run waits again.
pub proof fn child_is_attached(trace: TraceState, run: RunState, child: i32)
    requires
        trace.follow_forks,
        !trace.report.summary_only,
        model::is_consistent(trace, run),
        run.options_initialized,
        run.phase is Waiting,
    ensures
        ({
            let stop = Event::Status(WaitStatus::Stopped { pid: child, signal: SIGSTOP });
            let attaching = model::next(trace, run, stop);
            let resuming = followed_by(attaching, Event::Done);
            let waiting = followed_by(resuming, Event::Done);
            &&& model::is_acceptable(trace, run, stop)
            &&& attaching.action == Action::Write(Line::Attaching { pid: child })
            &&& accepts(attaching, Event::Done)
            &&& resuming.action == (Action::Resume { pid: child, deliver: None })
            &&& accepts(resuming, Event::Done)
            &&& waiting.action is Wait
            &&& waiting.trace == model::with_table(trace, child)
            &&& waiting.trace.tables.contains_key(child)
            &&& waiting.run == (RunState {
                start_times: run.start_times.insert(child, None),
                ..run
            })
            &&& model::is_consistent(waiting.trace, waiting.run)
        }),
{
    let stop = Event::Status(WaitStatus::Stopped { pid: child, signal: SIGSTOP });
    let attaching = model::next(trace, run, stop);
    let resuming = followed_by(attaching, Event::Done);
    let waiting = followed_by(resuming, Event::Done);
    model::lemma_next_is_consistent(trace, run, stop);
    model::lemma_next_is_consistent(attaching.trace, attaching.run, Event::Done);
    model::lemma_next_is_consistent(resuming.trace, resuming.run, Event::Done);
    assert(waiting.run =~= RunState { start_times: run.start_times.insert(child, None), ..run });
}

/// A call of a child is recorded from its first stop on: once attached, the child stops at the
/// start and at the end of the call, every answer is accepted, and in the end there is one record
/// more, with the number of the child, what it called, and the time that it took.
pub proof fn child_is_traced_from_its_first_stop(
    trace: TraceState,
    run: RunState,
    child: i32,
    start: Timestamp,
    entry_registers: Registers,
    end: Timestamp,
    registers: Registers,
    args: SyscallArgs,
    sysno: u32,
)
    requires
        trace.follow_forks,
        !trace.report.summary_only,
        model::is_consistent(trace, run),
        run.options_initialized,
        run.phase is Waiting,
        !trace.tables.contains_key(child),
        sysno::is_sysno(sysno),
        !sysno::is_exec(sysno),
        model::syscall_of(entry_registers) == Ok::<u32, TraceError>(sysno),
        model::syscall_of(registers) == Ok::<u32, TraceError>(sysno),
        has_room(trace.stats[sysno], end.nanos_since(start)),
        descriptors::call_is_valid(
            trace.tables[trace.pid],
            sysno,
            args.0@,
            model::outcome(sysno, registers),
        ),
    ensures
        ({
            let stop = Event::Status(WaitStatus::Stopped { pid: child, signal: SIGSTOP });
            let at_call = Event::Status(WaitStatus::PtraceSyscall { pid: child });
            let entry = Event::Message { message: 1, now: start };
            let exit = Event::Message { message: 2, now: end };
            let entry_regs = Event::Registers(Some(entry_registers));
            let exit_regs = Event::Registers(Some(registers));
            let attaching = model::next(trace, run, stop);
            let resumed = followed_by(attaching, Event::Done);
            let attached = followed_by(resumed, Event::Done);
            let entering = followed_by(followed_by(attached, at_call), entry);
            let entered = followed_by(entering, entry_regs);
            let in_call = followed_by(entered, Event::Done);
            let leaving = followed_by(followed_by(in_call, at_call), exit);
            let asked = followed_by(leaving, exit_regs);
            let done = followed_by(asked, Event::Args(args));
            &&& model::is_acceptable(trace, run, stop)
            &&& accepts(attaching, Event::Done)
            &&& accepts(resumed, Event::Done)
            &&& accepts(attached, at_call)
            &&& accepts(followed_by(attached, at_call), entry)
            &&& accepts(entering, entry_regs)
            &&& accepts(entered, Event::Done)
            &&& accepts(in_call, at_call)
            &&& accepts(followed_by(in_call, at_call), exit)
            &&& accepts(leaving, exit_regs)
            &&& asked.action == (Action::ParseArgs {
                pid: child,
                sysno,
                registers: entry_registers,
            })
            &&& accepts(asked, Event::Args(args))
            &&& done.trace.infos == trace.infos.push(
                InfoView {
                    typ: "SYSCALL"@,
                    pid: child,
                    syscall: sysno,
                    args: args.0@,
                    result: model::outcome(sysno, registers),
                    duration: end.nanos_since(start),
                    fds: trace.tables[trace.pid],
                },
            )
            &&& done.action == (Action::Resume { pid: child, deliver: None })
        }),
{
    child_is_attached(trace, run, child);
    let stop = Event::Status(WaitStatus::Stopped { pid: child, signal: SIGSTOP });
    let at_call = Event::Status(WaitStatus::PtraceSyscall { pid: child });
    let entry = Event::Message { message: 1, now: start };
    let exit = Event::Message { message: 2, now: end };
    assert(1i64 as u8 != PTRACE_SYSCALL_INFO_EXIT) by (bit_vector);
    assert(2i64 as u8 == PTRACE_SYSCALL_INFO_EXIT) by (bit_vector);
    let attached = followed_by(followed_by(model::next(trace, run, stop), Event::Done), Event::Done);
    let entering = followed_by(followed_by(attached, at_call), entry);
    assert(entering.run.phase == (Phase::EntryRegisters { pid: child }));
    assert(entering.trace == attached.trace);
    let entered = followed_by(entering, Event::Registers(Some(entry_registers)));
    let in_call = followed_by(entered, Event::Done);
    assert(in_call.trace == attached.trace);
    assert(in_call.run.entry_regs.get(child) == Some(entry_registers));
    assert(in_call.run.start_times.get(child) == Some(Some(start)));
    assert(model::pending(in_call.run, child) is None);
    let leaving = followed_by(followed_by(in_call, at_call), exit);
    assert(leaving.trace == attached.trace);
}

/// The command of a child is recorded: the arguments that a followed child called `exec` with are
/// read when it starts the call, and the call is accepted and recorded as the child's when it has
/// succeeded.
pub proof fn followed_child_exec_is_recorded(
    trace: TraceState,
    run: RunState,
    child: i32,
    args: SyscallArgs,
    signal: i32,
)
    requires
        trace.follow_forks,
        model::is_consistent(trace, run),
        run.start_times.contains_key(child),
        run.options_initialized,
        run.phase == (Phase::EntryArgs { pid: child }),
    ensures
        ({
            let succeeded = Event::Status(
                WaitStatus::PtraceEvent { pid: child, signal, code: PTRACE_EVENT_EXEC },
            );
            let entered = model::next(trace, run, Event::Args(args));
            let waiting = followed_by(entered, Event::Done);
            let done = followed_by(waiting, succeeded);
            &&& model::is_acceptable(trace, run, Event::Args(args))
            &&& accepts(entered, Event::Done)
            &&& accepts(waiting, succeeded)
            &&& done.trace.infos == trace.infos.push(
                InfoView {
                    typ: "SYSCALL"@,
                    pid: child,
                    syscall: EXECVE,
                    args: args.0@,
                    result: RetCode::Success(0),
                    duration: 0,
                    fds: trace.tables[child],
                },
            )
            &&& done.action == (Action::Resume { pid: child, deliver: None })
        }),
{
}

/// A line or a summary that cannot be written ends the run, with the error that came of it.
pub proof fn failed_output_ends_the_run(trace: TraceState, run: RunState)
    requires
        run.phase is LogOutput || run.phase is Attaching || run.phase is Terminating || run.phase
            is SummaryGap || run.phase is Reporting,
    ensures
        model::is_acceptable(trace, run, Event::Failed),
        model::next(trace, run, Event::Failed).action is Propagate,
        model::next(trace, run, Event::Failed).run.phase is Finished,
        model::next(trace, run, Event::Failed).trace == trace,
{
}

/// A line that is to be written can be written: the signal in it, if there is one, has a name.
pub proof fn lines_are_valid(trace: TraceState, run: RunState, event: Event)
    requires
        model::is_acceptable(trace, run, event),
    ensures
        model::next(trace, run, event).action matches Action::Write(line) ==> line.is_valid(),
{
}

/// An outcome that is no address has the value of the register that it was read from, and is a
/// failure if and only if that value is below zero.
pub proof fn outcome_keeps_the_value(raw: u64)
    ensures
        match syscall_info::ret_code(raw) {
            RetCode::Success(value) => value == syscall_info::signed(raw) && value >= 0,
            RetCode::Failure(value) => value == syscall_info::signed(raw) && value < 0,
            RetCode::Address(address) => address == raw,
        },
{
}

} // verus!
