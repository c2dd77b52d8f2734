//! What each event makes of a run, on plain values.

use vstd::prelude::*;

use crate::descriptors;
use crate::model;
use crate::model::{ReportOptions, RunState, Step, TraceState};
use crate::protocol::{
    Action, Event, Line, LogEntry, LogRequest, Phase, Timestamp, TraceError, WaitStatus,
};
use crate::syscall_info;
use crate::syscall_info::{FdType, InfoView, Registers, RetCode, SyscallArg, SyscallArgs};
use crate::sysno;
use crate::sysno::{SyscallStats, OPENAT, READ, WRITE};

verus! {

/// Before anything happens nothing is counted, recorded or held open; the started process alone
/// has a table, and it alone is followed.
pub proof fn tracer_starts_with_nothing(pid: i32, follow_forks: bool, collapse: bool, id: u32)
    ensures
        ({
            let trace = model::initial_trace(pid, follow_forks, collapse);
            let run = model::initial_run(pid);
            &&& trace.pid == pid
            &&& trace.follow_forks == follow_forks
            &&& trace.collapse_exec_retries == collapse
            &&& trace.report == (ReportOptions { json: false, summary: false, summary_only: false })
            &&& trace.infos.len() == 0
            &&& trace.retries.dom() == Set::<i32>::empty()
            &&& trace.tables.dom() == set![pid]
            &&& trace.tables[pid].dom() == Set::<i32>::empty()
            &&& sysno::is_sysno(id) ==> trace.stats.contains_key(id) && trace.stats[id] == (
            SyscallStats { time: 0, pass: 0, fail: 0 })
            &&& run.phase is Waiting
            &&& !run.options_initialized
            &&& run.entry_regs.dom() == Set::<i32>::empty()
            &&& run.start_times.dom() == set![pid]
            &&& run.start_times[pid] is None
            &&& run.pending_args.get(pid) == Some(None::<SyscallArgs>)
        }),
{
    let trace = model::initial_trace(pid, follow_forks, collapse);
    let run = model::initial_run(pid);
    assert(trace.retries.dom() =~= Set::<i32>::empty());
    assert(trace.tables.dom() =~= set![pid]);
    assert(trace.tables[pid].dom() =~= Set::<i32>::empty());
    assert(run.entry_regs.dom() =~= Set::<i32>::empty());
    assert(run.start_times.dom() =~= set![pid]);
}

/// The arguments that were read at the start of a call of `exec`, where they are kept.
pub open spec fn kept_args(run: RunState, pid: i32) -> Option<SyscallArgs> {
    match run.pending_args.get(pid) {
        Some(Some(args)) => Some(args),
        _ => None,
    }
}

/// The step asks for a process to be resumed without a signal, and changes nothing else.
pub open spec fn only_resumes(step: Step, trace: TraceState, run: RunState, pid: i32) -> bool {
    &&& step.trace == trace
    &&& step.action == (Action::Resume { pid, deliver: None })
    &&& step.run == (RunState { phase: Phase::Resuming { pid }, ..run })
}

/// The first change of state is put off until the options are set, and is then handled like any
/// other.
pub proof fn first_status_is_handled_after_the_options(
    trace: TraceState,
    run: RunState,
    status: WaitStatus,
)
    requires
        !run.options_initialized,
    ensures
        ({
            let step = model::next(trace, run, Event::Status(status));
            let handled = model::next(step.trace, step.run, Event::Done);
            let ready = RunState { options_initialized: true, ..run };
            &&& step.trace == trace
            &&& step.action == (Action::InitOptions {
                pid: trace.pid,
                follow_forks: trace.follow_forks,
            })
            &&& step.run == (RunState { phase: Phase::SettingOptions { status }, ..run })
            &&& handled == model::next(trace, ready, Event::Status(status))
        }),
{
}

/// A process that stops with `SIGSTOP` is resumed without a signal. Where children are followed
/// it is followed from now on, a line says so unless only a summary is wanted, and it has the
/// descriptors of the started process unless it had some.
pub proof fn stop_of_a_child(trace: TraceState, run: RunState, pid: i32, other: i32)
    requires
        run.options_initialized,
    ensures
        ({
            let status = WaitStatus::Stopped { pid, signal: 19 };
            let step = model::next(trace, run, Event::Status(status));
            &&& !trace.follow_forks ==> only_resumes(step, trace, run, pid)
            &&& trace.follow_forks ==> {
                &&& step.trace == (TraceState { tables: step.trace.tables, ..trace })
                &&& step.trace.tables.get(pid) == if trace.tables.contains_key(pid) {
                    trace.tables.get(pid)
                } else {
                    Some(trace.tables[trace.pid])
                }
                &&& other != pid ==> step.trace.tables.get(other) == trace.tables.get(other)
                &&& step.run == (RunState {
                    phase: step.run.phase,
                    start_times: run.start_times.insert(pid, None),
                    ..run
                })
                &&& trace.report.summary_only ==> step.run.phase == (Phase::Resuming { pid })
                    && step.action == (Action::Resume { pid, deliver: None })
                &&& !trace.report.summary_only ==> {
                    let line = model::next(step.trace, step.run, Event::Done);
                    &&& step.action == Action::Write(Line::Attaching { pid })
                    &&& only_resumes(line, step.trace, step.run, pid)
                }
            }
        }),
{
}

/// `SIGCHLD` is handed to the process that stopped, which goes on to its next call; any other
/// signal but those of the tracing is handed to it, and it goes on.
pub proof fn signals_are_handed_on(trace: TraceState, run: RunState, pid: i32, signal: i32)
    requires
        run.options_initialized,
        signal != 5,
        signal != 19,
    ensures
        ({
            let step = model::next(trace, run, Event::Status(WaitStatus::Stopped { pid, signal }));
            &&& step.trace == trace
            &&& signal == 17 ==> step.action == (Action::Resume { pid, deliver: Some(17i32) })
                && step.run == (RunState { phase: Phase::Resuming { pid }, ..run })
            &&& signal != 17 ==> step.action == (Action::Continue { pid, signal }) && step.run == (
            RunState { phase: Phase::Continuing, ..run })
        }),
{
}

/// A process that stops with `SIGTRAP` called `exec`: the call is logged with the registers and
/// the arguments that are kept of its start, which are used up. Where no registers are kept, they
/// are asked for, to see whether it is in a call of `exec` now.
pub proof fn trap_is_logged(trace: TraceState, run: RunState, pid: i32)
    requires
        run.options_initialized,
    ensures
        ({
            let status = WaitStatus::Stopped { pid, signal: 5 };
            let step = model::next(trace, run, Event::Status(status));
            &&& step.trace == trace
            &&& step.action == (Action::GetRegisters { pid })
            &&& step.run == (RunState {
                phase: match run.entry_regs.get(pid) {
                    Some(registers) => Phase::LogRegisters {
                        request: LogRequest {
                            pid,
                            entry_regs: Some(registers),
                            args: kept_args(run, pid),
                            timing: None,
                            ends_call: false,
                        },
                    },
                    None => Phase::TrapRegisters { pid, args: kept_args(run, pid) },
                },
                entry_regs: run.entry_regs.remove(pid),
                pending_args: run.pending_args.remove(pid),
                ..run
            })
        }),
{
}

/// The exit of the started process ends the run, and that of another is passed over. A process
/// that was killed ends the run after a line on it. What was stopped and goes on is passed over.
pub proof fn ends_of_processes(
    trace: TraceState,
    run: RunState,
    pid: i32,
    code: i32,
    signal: i32,
    core_dumped: bool,
)
    requires
        run.options_initialized,
    ensures
        ({
            let waits = Step {
                trace,
                run: RunState { phase: Phase::Waiting, ..run },
                action: Action::Wait,
            };
            let exited = model::next(trace, run, Event::Status(WaitStatus::Exited { pid, code }));
            let killed = model::next(
                trace,
                run,
                Event::Status(WaitStatus::Signaled { pid, signal, core_dumped }),
            );
            let wanted = !trace.report.json && (trace.report.summary || trace.report.summary_only);
            &&& pid != trace.pid ==> exited == waits
            &&& pid == trace.pid ==> {
                &&& exited.trace == trace
                &&& exited.run == (RunState { phase: exited.run.phase, ..run })
                &&& !wanted ==> exited.action is Finish && exited.run.phase is Finished
                &&& wanted && trace.report.summary_only ==> exited.action == (Action::Report {
                    gap: false,
                }) && exited.run.phase is Reporting
                &&& wanted && !trace.report.summary_only ==> exited.action == Action::Write(
                    Line::Blank,
                ) && exited.run.phase is SummaryGap
            }
            &&& killed == (Step {
                trace,
                run: RunState { phase: Phase::Terminating, ..run },
                action: Action::Write(Line::Terminated { pid, signal, core_dumped }),
            })
            &&& model::next(killed.trace, killed.run, Event::Done) == model::next(
                trace,
                run,
                Event::Status(WaitStatus::Exited { pid: trace.pid, code }),
            )
            &&& model::next(trace, run, Event::Status(WaitStatus::Continued { pid })) == waits
            &&& model::next(trace, run, Event::Status(WaitStatus::StillAlive)) == waits
        }),
{
}

/// The end of a run that has a summary to write: the gap, then the summary, and it is over.
pub proof fn summary_is_the_last_thing_written(trace: TraceState, run: RunState)
    ensures
        run.phase is SummaryGap ==> model::next(trace, run, Event::Done) == (Step {
            trace,
            run: RunState { phase: Phase::Reporting, ..run },
            action: Action::Report { gap: !trace.report.summary_only },
        }),
        run.phase is Reporting ==> model::next(trace, run, Event::Done) == (Step {
            trace,
            run: RunState { phase: Phase::Finished, ..run },
            action: Action::Finish,
        }),
{
}

/// A call of `exec` that succeeded is recorded, with the arguments that are kept of its start;
/// where none are kept the registers are asked for. A process that is about to exit has its
/// registers asked for. Any other event of the tracing is passed over.
pub proof fn events_of_the_tracing(
    trace: TraceState,
    run: RunState,
    pid: i32,
    signal: i32,
    code: i32,
)
    requires
        run.options_initialized,
    ensures
        ({
            let status = WaitStatus::PtraceEvent { pid, signal, code };
            let step = model::next(trace, run, Event::Status(status));
            let used_up = RunState { pending_args: run.pending_args.remove(pid), ..run };
            &&& code == 4 ==> match kept_args(run, pid) {
                Some(args) => {
                    &&& step.trace.infos == trace.infos.push(
                        InfoView {
                            typ: "SYSCALL"@,
                            pid,
                            syscall: 59,
                            args: args.0@,
                            result: RetCode::Success(0),
                            duration: 0,
                            fds: trace.tables[pid],
                        },
                    )
                    &&& step.trace == (TraceState {
                        infos: step.trace.infos,
                        tables: trace.tables.insert(pid, trace.tables[pid]),
                        ..trace
                    })
                    &&& step.action == (Action::Resume { pid, deliver: None })
                    &&& step.run == (RunState { phase: Phase::Resuming { pid }, ..used_up })
                },
                None => step == (Step {
                    trace,
                    run: RunState { phase: Phase::ExecRegisters { pid }, ..used_up },
                    action: Action::GetRegisters { pid },
                }),
            }
            &&& code == 6 ==> step == (Step {
                trace,
                run: RunState { phase: Phase::ExitRegisters { pid }, ..run },
                action: Action::GetRegisters { pid },
            })
            &&& code != 4 && code != 6 ==> only_resumes(step, trace, run, pid)
        }),
{
}

/// At a stop at a system call the message is asked for. The stop of a process that is not followed
/// ends the run. The message 2 tells the end of a call: it is logged with the registers and
/// the arguments that are kept of its start, and timed where its start is known. Any other tells
/// the start of one, which is kept, and the registers are asked for.
pub proof fn stops_at_calls(
    trace: TraceState,
    run: RunState,
    pid: i32,
    message: i64,
    now: Timestamp,
)
    ensures
        run.options_initialized ==> model::next(
            trace,
            run,
            Event::Status(WaitStatus::PtraceSyscall { pid }),
        ) == (Step {
            trace,
            run: RunState { phase: Phase::EventMessage { pid }, ..run },
            action: Action::GetEvent { pid },
        }),
        run.phase == (Phase::EventMessage { pid }) ==> {
            let step = model::next(trace, run, Event::Message { message, now });
            &&& step.trace == trace
            &&& !run.start_times.contains_key(pid) ==> {
                &&& step.action == Action::Fail(TraceError::NoStartTime { pid })
                &&& step.run == (RunState { phase: Phase::Finished, ..run })
            }
            &&& run.start_times.contains_key(pid) ==> step.action == (Action::GetRegisters { pid })
            &&& run.start_times.contains_key(pid) && message as u8 == 2 ==> step.run == (RunState {
                phase: Phase::LogRegisters {
                    request: LogRequest {
                        pid,
                        entry_regs: run.entry_regs.get(pid),
                        args: kept_args(run, pid),
                        timing: match run.start_times[pid] {
                            Some(start) => Some((start, now)),
                            None => None,
                        },
                        ends_call: true,
                    },
                },
                pending_args: run.pending_args.remove(pid),
                ..run
            })
            &&& run.start_times.contains_key(pid) && message as u8 != 2 ==> step.run == (RunState {
                phase: Phase::EntryRegisters { pid },
                start_times: run.start_times.insert(pid, Some(now)),
                ..run
            })
        },
{
}

/// At the start of a call its registers are kept. The arguments of a call of `exec` are asked for
/// at once, and kept; of any other call none are kept. Registers that cannot be read end the run.
pub proof fn starts_of_calls(
    trace: TraceState,
    run: RunState,
    pid: i32,
    registers: Registers,
    args: SyscallArgs,
)
    ensures
        run.phase == (Phase::EntryRegisters { pid }) ==> {
            let step = model::next(trace, run, Event::Registers(Some(registers)));
            let kept = RunState { entry_regs: run.entry_regs.insert(pid, registers), ..run };
            let number = registers.orig_rax;
            &&& number == 59 || number == 322 ==> step == (Step {
                trace,
                run: RunState { phase: Phase::EntryArgs { pid }, ..kept },
                action: Action::ParseArgs { pid, sysno: number as u32, registers },
            })
            &&& number != 59 && number != 322 && number <= 0xffff_ffff ==> only_resumes(
                step,
                trace,
                RunState { pending_args: run.pending_args.insert(pid, None), ..kept },
                pid,
            )
            &&& number > 0xffff_ffff ==> only_resumes(step, trace, kept, pid)
            &&& model::next(trace, run, Event::Registers(None)) == (Step {
                trace,
                run: RunState { phase: Phase::Finished, ..run },
                action: Action::Fail(TraceError::Registers { pid }),
            })
        },
        run.phase == (Phase::EntryArgs { pid }) ==> only_resumes(
            model::next(trace, run, Event::Args(args)),
            trace,
            RunState { pending_args: run.pending_args.insert(pid, Some(args)), ..run },
            pid,
        ),
{
}

/// Where a process called `exec` and no registers are kept of the start, what it is in now
/// decides: in a call of `exec` the arguments are asked for and the call is logged with them, and
/// otherwise it is logged with what is kept.
pub proof fn trap_without_registers(
    trace: TraceState,
    run: RunState,
    pid: i32,
    kept: Option<SyscallArgs>,
    registers: Option<Registers>,
    args: SyscallArgs,
)
    requires
        run.phase == (Phase::TrapRegisters { pid, args: kept }),
    ensures
        ({
            let step = model::next(trace, run, Event::Registers(registers));
            let in_exec = registers matches Some(found) && (found.orig_rax == 59 || found.orig_rax
                == 322);
            &&& step.trace == trace
            &&& !in_exec ==> step.action == (Action::GetRegisters { pid }) && step.run == (
            RunState {
                phase: Phase::LogRegisters {
                    request: LogRequest {
                        pid,
                        entry_regs: None,
                        args: kept,
                        timing: None,
                        ends_call: false,
                    },
                },
                ..run
            })
            &&& in_exec ==> {
                let found = registers->0;
                let read = model::next(step.trace, step.run, Event::Args(args));
                &&& step.action == (Action::ParseArgs {
                    pid,
                    sysno: found.orig_rax as u32,
                    registers: found,
                })
                &&& read.trace == trace
                &&& read.action == (Action::GetRegisters { pid })
                &&& read.run == (RunState {
                    phase: Phase::LogRegisters {
                        request: LogRequest {
                            pid,
                            entry_regs: Some(found),
                            args: Some(args),
                            timing: None,
                            ends_call: false,
                        },
                    },
                    ..run
                })
            }
        }),
{
}

/// Where a call of `exec` succeeded and no arguments are kept of its start, they are read from the
/// registers if these show a call of `exec`, and the call is recorded with them; otherwise it is
/// passed over.
pub proof fn exec_without_arguments(
    trace: TraceState,
    run: RunState,
    pid: i32,
    registers: Option<Registers>,
    args: SyscallArgs,
)
    requires
        run.phase == (Phase::ExecRegisters { pid }),
    ensures
        ({
            let step = model::next(trace, run, Event::Registers(registers));
            let in_exec = registers matches Some(found) && (found.orig_rax == 59 || found.orig_rax
                == 322);
            let read = model::next(step.trace, step.run, Event::Args(args));
            &&& !in_exec ==> only_resumes(step, trace, run, pid)
            &&& in_exec ==> {
                &&& step.trace == trace
                &&& step.action == (Action::ParseArgs {
                    pid,
                    sysno: (registers->0).orig_rax as u32,
                    registers: registers->0,
                })
                &&& read.trace.infos == trace.infos.push(
                    InfoView {
                        typ: "SYSCALL"@,
                        pid,
                        syscall: 59,
                        args: args.0@,
                        result: RetCode::Success(0),
                        duration: 0,
                        fds: trace.tables[pid],
                    },
                )
                &&& read.action == (Action::Resume { pid, deliver: None })
                &&& read.run == (RunState { phase: Phase::Resuming { pid }, ..run })
            }
        }),
{
}

/// A process that is about to exit has the call logged that it is in, if that is a call to exit;
/// otherwise it is passed over. Registers that cannot be read end the run.
pub proof fn exit_is_logged(trace: TraceState, run: RunState, pid: i32, registers: Registers)
    requires
        run.phase == (Phase::ExitRegisters { pid }),
    ensures
        ({
            let step = model::next(trace, run, Event::Registers(Some(registers)));
            let exits = registers.orig_rax == 60 || registers.orig_rax == 231;
            &&& !exits ==> only_resumes(step, trace, run, pid)
            &&& exits ==> step == (Step {
                trace,
                run: RunState {
                    phase: Phase::LogRegisters {
                        request: LogRequest {
                            pid,
                            entry_regs: None,
                            args: kept_args(run, pid),
                            timing: None,
                            ends_call: false,
                        },
                    },
                    pending_args: run.pending_args.remove(pid),
                    ..run
                },
                action: Action::GetRegisters { pid },
            })
            &&& model::next(trace, run, Event::Registers(None)) == (Step {
                trace,
                run: RunState { phase: Phase::Finished, ..run },
                action: Action::Fail(TraceError::Registers { pid }),
            })
        }),
{
}

/// The run as it goes on after a call of a process was logged: the process is resumed, and where
/// the call is at its end its start is forgotten.
pub open spec fn goes_on(step: Step, run: RunState, request: LogRequest) -> bool {
    &&& step.action == (Action::Resume { pid: request.pid, deliver: None })
    &&& step.run == (RunState {
        phase: Phase::Resuming { pid: request.pid },
        start_times: if request.ends_call {
            run.start_times.insert(request.pid, None)
        } else {
            run.start_times
        },
        ..run
    })
}

/// A call whose registers cannot be read, or hold no number of a call, is passed over after a
/// warning: nothing is counted or recorded.
pub proof fn unreadable_call_is_passed_over(
    trace: TraceState,
    run: RunState,
    request: LogRequest,
    registers: Option<Registers>,
)
    requires
        run.phase == (Phase::LogRegisters { request }),
        registers matches Some(found) ==> found.orig_rax > 0xffff_ffff,
    ensures
        ({
            let step = model::next(trace, run, Event::Registers(registers));
            let shown = model::next(step.trace, step.run, Event::Done);
            &&& step.trace == trace
            &&& step.action == Action::Warn(
                match registers {
                    Some(found) => TraceError::InvalidSyscall { register: found.orig_rax },
                    None => TraceError::Registers { pid: request.pid },
                },
            )
            &&& shown.trace == trace
            &&& goes_on(shown, run, request)
        }),
{
}

/// The outcome of the call that the registers are of: none of its own for a call to exit, and
/// otherwise what the return register says.
pub open spec fn outcome_in(registers: Registers) -> RetCode {
    if registers.orig_rax == 60 || registers.orig_rax == 231 {
        RetCode::Success(0)
    } else {
        syscall_info::ret_code(registers.rax)
    }
}

/// The time of a call: from its start to its end where both are known.
pub open spec fn time_of(request: LogRequest) -> u128 {
    match request.timing {
        Some((start, end)) => end.nanos_since(start),
        None => 0,
    }
}

/// The call is an attempt to run a program, and such attempts are collapsed.
pub open spec fn is_collapsible(trace: TraceState, registers: Registers) -> bool {
    trace.collapse_exec_retries && (registers.orig_rax == 59 || registers.orig_rax == 322)
}

/// When a call is logged, one is counted of its number, as failed if its outcome is a failure and
/// as passed otherwise, but for calls to exit; and nothing is counted of any other number.
pub proof fn call_is_counted_under_its_number(
    trace: TraceState,
    run: RunState,
    request: LogRequest,
    registers: Registers,
    id: u32,
)
    requires
        run.phase == (Phase::LogRegisters { request }),
        registers.orig_rax <= 0xffff_ffff,
        model::is_acceptable(trace, run, Event::Registers(Some(registers))),
    ensures
        ({
            let after = model::next(trace, run, Event::Registers(Some(registers))).trace.stats;
            let exits = registers.orig_rax == 60 || registers.orig_rax == 231;
            let failed = syscall_info::ret_code(registers.rax) is Failure;
            let before = trace.stats[id];
            &&& id != registers.orig_rax ==> after.get(id) == trace.stats.get(id)
            &&& id == registers.orig_rax ==> {
                &&& after[id].fail == before.fail + if !exits && failed {
                    1int
                } else {
                    0
                }
                &&& after[id].pass == before.pass + if !exits && !failed {
                    1int
                } else {
                    0
                }
            }
        }),
{
}

/// A failed attempt to run a program is held back where such attempts are collapsed: it adds one
/// to those of its process, and nothing is recorded, timed or written.
pub proof fn failed_attempt_is_held_back(
    trace: TraceState,
    run: RunState,
    request: LogRequest,
    registers: Registers,
    other: i32,
)
    requires
        run.phase == (Phase::LogRegisters { request }),
        is_collapsible(trace, registers),
        syscall_info::ret_code(registers.rax) is Failure,
        model::is_acceptable(trace, run, Event::Registers(Some(registers))),
    ensures
        ({
            let step = model::next(trace, run, Event::Registers(Some(registers)));
            let before = match trace.retries.get(request.pid) {
                Some(count) => count as int,
                None => 0,
            };
            &&& goes_on(step, run, request)
            &&& step.trace.infos == trace.infos
            &&& step.trace.tables == trace.tables
            &&& step.trace.retries.contains_key(request.pid)
            &&& step.trace.retries[request.pid] == before + 1
            &&& other != request.pid ==> step.trace.retries.get(other) == trace.retries.get(other)
            &&& step.trace.stats[registers.orig_rax as u32].time == trace.stats[registers.orig_rax as u32].time
        }),
{
}

/// An attempt to run a program that did not fail is preceded by a line on those of its process
/// that were held back, if there were any, and they are forgotten; those of others are kept.
pub proof fn held_back_attempts_are_reported(
    trace: TraceState,
    run: RunState,
    request: LogRequest,
    registers: Registers,
    count: usize,
    other: i32,
)
    requires
        run.phase == (Phase::LogRegisters { request }),
        is_collapsible(trace, registers),
        !(syscall_info::ret_code(registers.rax) is Failure),
        trace.retries.get(request.pid) == Some(count),
        count > 0,
    ensures
        ({
            let step = model::next(trace, run, Event::Registers(Some(registers)));
            &&& step.action == Action::Write(Line::Collapsed { pid: request.pid, count })
            &&& !step.trace.retries.contains_key(request.pid)
            &&& other != request.pid ==> step.trace.retries.get(other) == trace.retries.get(other)
            &&& step.trace.infos == trace.infos
            &&& step.trace.tables == trace.tables
            &&& step.run == (RunState {
                phase: Phase::LogOutput {
                    entry: LogEntry {
                        pid: request.pid,
                        sysno: registers.orig_rax as u32,
                        code: syscall_info::ret_code(registers.rax),
                        registers: match request.entry_regs {
                            Some(entry_regs) => entry_regs,
                            None => registers,
                        },
                        args: request.args,
                        timing: request.timing,
                        ends_call: request.ends_call,
                    },
                },
                ..run
            })
        }),
{
}

/// A call is logged at once where it is no attempt to run a program that is collapsed, or none
/// was held back before it.
pub open spec fn is_logged_at_once(
    trace: TraceState,
    request: LogRequest,
    registers: Registers,
) -> bool {
    is_collapsible(trace, registers) ==> {
        &&& !(syscall_info::ret_code(registers.rax) is Failure)
        &&& trace.retries.get(request.pid) is None
    }
}

/// The record of a call: its process, its number, its arguments, its outcome, its time, and the
/// descriptors that its process had before it.
pub open spec fn record_of(
    trace: TraceState,
    request: LogRequest,
    registers: Registers,
    args: SyscallArgs,
) -> InfoView {
    InfoView {
        typ: "SYSCALL"@,
        pid: request.pid,
        syscall: registers.orig_rax as u32,
        args: args.0@,
        result: outcome_in(registers),
        duration: time_of(request),
        fds: trace.tables[request.pid],
    }
}

/// A call adds the time that it took to that of its number.
pub proof fn call_adds_its_time(
    trace: TraceState,
    run: RunState,
    request: LogRequest,
    registers: Registers,
)
    requires
        run.phase == (Phase::LogRegisters { request }),
        registers.orig_rax <= 0xffff_ffff,
        is_logged_at_once(trace, request, registers),
        model::is_acceptable(trace, run, Event::Registers(Some(registers))),
    ensures
        ({
            let step = model::next(trace, run, Event::Registers(Some(registers)));
            let id = registers.orig_rax as u32;
            step.trace.stats[id].time == trace.stats[id].time + time_of(request)
        }),
{
}

/// Where only a summary is wanted a logged call leaves no record. Otherwise its arguments are
/// asked for, with the registers of its start where they are kept, and it is recorded with them;
/// or it is recorded at once with those that are kept of its start.
pub proof fn call_is_recorded(
    trace: TraceState,
    run: RunState,
    request: LogRequest,
    registers: Registers,
    args: SyscallArgs,
    other: i32,
)
    requires
        run.phase == (Phase::LogRegisters { request }),
        registers.orig_rax <= 0xffff_ffff,
        is_logged_at_once(trace, request, registers),
    ensures
        ({
            let step = model::next(trace, run, Event::Registers(Some(registers)));
            let read = model::next(step.trace, step.run, Event::Args(args));
            let only_counted = TraceState { stats: step.trace.stats, ..trace };
            let id = registers.orig_rax as u32;
            &&& trace.report.summary_only ==> step.trace == only_counted && goes_on(
                step,
                run,
                request,
            )
            &&& !trace.report.summary_only && request.args is None ==> {
                &&& step.trace == only_counted
                &&& step.action == (Action::ParseArgs {
                    pid: request.pid,
                    sysno: id,
                    registers: match request.entry_regs {
                        Some(entry_regs) => entry_regs,
                        None => registers,
                    },
                })
                &&& goes_on(read, run, request)
                &&& read.trace.stats == step.trace.stats
                &&& read.trace.retries == trace.retries
                &&& read.trace.infos == trace.infos.push(record_of(trace, request, registers, args))
                &&& read.trace.tables.get(request.pid) == Some(
                    descriptors::fds_after(
                        trace.tables[request.pid],
                        id,
                        args.0@,
                        outcome_in(registers),
                    ),
                )
                &&& other != request.pid ==> read.trace.tables.get(other) == trace.tables.get(other)
            }
            &&& !trace.report.summary_only && request.args == Some(args) ==> {
                &&& goes_on(step, run, request)
                &&& step.trace.retries == trace.retries
                &&& step.trace.infos == trace.infos.push(record_of(trace, request, registers, args))
                &&& step.trace.tables.get(request.pid) == Some(
                    descriptors::fds_after(
                        trace.tables[request.pid],
                        id,
                        args.0@,
                        outcome_in(registers),
                    ),
                )
                &&& other != request.pid ==> step.trace.tables.get(other) == trace.tables.get(other)
            }
        }),
{
}

/// Once the line on attempts that were held back is written, the call is logged as if there had
/// been none.
pub proof fn reported_attempts_make_no_difference(
    trace: TraceState,
    run: RunState,
    request: LogRequest,
    registers: Registers,
    count: usize,
)
    requires
        run.phase == (Phase::LogRegisters { request }),
        is_collapsible(trace, registers),
        !(syscall_info::ret_code(registers.rax) is Failure),
        trace.retries.get(request.pid) == Some(count),
        count > 0,
    ensures
        ({
            let step = model::next(trace, run, Event::Registers(Some(registers)));
            let cleared = TraceState { retries: trace.retries.remove(request.pid), ..trace };
            model::next(step.trace, step.run, Event::Done) == model::next(
                cleared,
                run,
                Event::Registers(Some(registers)),
            )
        }),
{
    let cleared = TraceState { retries: trace.retries.remove(request.pid), ..trace };
    assert(!cleared.retries.contains_key(request.pid));
    let step = model::next(trace, run, Event::Registers(Some(registers)));
    assert(model::next(step.trace, step.run, Event::Done) =~= model::next(
        cleared,
        run,
        Event::Registers(Some(registers)),
    ));
}

/// A process that was resumed is waited for, as is one that was handed a signal. A process that
/// cannot be resumed ends the run with an error that names it, and whatever else fails ends it
/// with its own error; nothing is lost of what was counted and recorded.
pub proof fn requests_are_answered(trace: TraceState, run: RunState, pid: i32)
    ensures
        run.phase is Resuming || run.phase is Continuing ==> model::next(trace, run, Event::Done)
            == (Step {
            trace,
            run: RunState { phase: Phase::Waiting, ..run },
            action: Action::Wait,
        }),
        run.phase == (Phase::Resuming { pid }) ==> model::next(trace, run, Event::Failed) == (Step {
            trace,
            run: RunState { phase: Phase::Finished, ..run },
            action: Action::Fail(TraceError::Resume { pid }),
        }),
        !(run.phase is Resuming) ==> model::next(trace, run, Event::Failed) == (Step {
            trace,
            run: RunState { phase: Phase::Finished, ..run },
            action: Action::Propagate,
        }),
{
}

/// A change of state can be handled whenever one is waited for, but for a call of `exec` of a
/// process without a table, and a signal that has no name.
pub proof fn every_status_can_be_handled(trace: TraceState, run: RunState, status: WaitStatus)
    requires
        run.phase is Waiting,
    ensures
        model::is_acceptable(trace, run, Event::Status(status)) <==> (run.options_initialized
            ==> match status {
            WaitStatus::PtraceEvent { pid, code, .. } => code == 4 && kept_args(run, pid) is Some
                ==> trace.tables.contains_key(pid),
            WaitStatus::Signaled { signal, .. } => 1 <= signal && signal <= 31,
            _ => true,
        }),
        model::is_acceptable(trace, run, Event::Failed),
{
}

/// That what was asked for is done, or failed, can be told wherever something was asked for that
/// is not answered with a value.
pub proof fn every_answer_can_be_told(trace: TraceState, run: RunState)
    ensures
        run.phase is Warning || run.phase is Attaching || run.phase is Resuming || run.phase
            is Continuing || run.phase is Terminating || run.phase is SummaryGap || run.phase
            is Reporting ==> model::is_acceptable(trace, run, Event::Done),
        run.phase matches Phase::SettingOptions { status } ==> (model::is_acceptable(
            trace,
            run,
            Event::Done,
        ) <==> model::is_acceptable(
            trace,
            (RunState { phase: Phase::Waiting, options_initialized: true, ..run }),
            Event::Status(status),
        )),
        run.phase is SettingOptions || run.phase is LogOutput || run.phase is Attaching || run.phase
            is Resuming || run.phase is Continuing || run.phase is Terminating || run.phase
            is SummaryGap || run.phase is Reporting || run.phase is EventMessage
            ==> model::is_acceptable(trace, run, Event::Failed),
{
}

/// Any message can be handled where one was asked for, and any registers where they could not be
/// read; registers that were read need only hold the number of a call, or none at all.
pub proof fn every_value_can_be_handled(
    trace: TraceState,
    run: RunState,
    message: i64,
    now: Timestamp,
    registers: Registers,
    args: SyscallArgs,
)
    ensures
        run.phase is EventMessage ==> model::is_acceptable(
            trace,
            run,
            Event::Message { message, now },
        ),
        run.phase is TrapRegisters || run.phase is LogRegisters || run.phase is ExecRegisters
            || run.phase is ExitRegisters || run.phase is EntryRegisters ==> model::is_acceptable(
            trace,
            run,
            Event::Registers(None),
        ),
        run.phase is ExitRegisters ==> model::is_acceptable(
            trace,
            run,
            Event::Registers(Some(registers)),
        ),
        run.phase is TrapRegisters || run.phase is ExecRegisters || run.phase is EntryRegisters ==> (
        model::is_acceptable(trace, run, Event::Registers(Some(registers))) <==> registers.orig_rax
            > 0xffff_ffff || registers.orig_rax <= 334 || (424 <= registers.orig_rax
            && registers.orig_rax <= 461)),
        run.phase is TrapArgs || run.phase is EntryArgs ==> model::is_acceptable(
            trace,
            run,
            Event::Args(args),
        ),
        run.phase matches Phase::ExecArgs { pid } ==> (model::is_acceptable(
            trace,
            run,
            Event::Args(args),
        ) <==> trace.tables.contains_key(pid)),
        run.phase matches Phase::LogArgs { pid, sysno, code, .. } ==> (model::is_acceptable(
            trace,
            run,
            Event::Args(args),
        ) <==> trace.tables.contains_key(pid) && descriptors::call_is_valid(
            trace.tables[pid],
            sysno,
            args.0@,
            code,
        )),
{
}

/// A call can be logged if its registers hold no number at all, or that of a call, its counters
/// and its time have room for it, its process has a table, and the arguments that are kept of it
/// are of the right kinds.
pub proof fn every_call_can_be_logged(
    trace: TraceState,
    run: RunState,
    request: LogRequest,
    registers: Registers,
)
    requires
        run.phase == (Phase::LogRegisters { request }),
        registers.orig_rax > 0xffff_ffff || ({
            let id = registers.orig_rax as u32;
            let counted = trace.stats[id];
            &&& registers.orig_rax <= 334 || (424 <= registers.orig_rax && registers.orig_rax
                <= 461)
            &&& counted.pass < 0xffff_ffff_ffff_ffff
            &&& counted.fail < 0xffff_ffff_ffff_ffff
            &&& counted.time + time_of(request) <= 18_446_744_073_709_551_615_999_999_999
            &&& trace.retries.get(request.pid) matches Some(count) ==> count < usize::MAX
            &&& trace.report.summary_only || trace.tables.contains_key(request.pid)
            &&& trace.report.summary_only || (request.args matches Some(args)
                ==> descriptors::call_is_valid(
                trace.tables[request.pid],
                id,
                args.0@,
                outcome_in(registers),
            ))
        }),
    ensures
        model::is_acceptable(trace, run, Event::Registers(Some(registers))),
{
}

/// The list of opened files grows by the path of each call of `openat`, and by no other call.
pub proof fn opened_files_grow_by_openat(infos: Seq<InfoView>, record: InfoView, path: String)
    ensures
        model::opened_files(Seq::empty()).len() == 0,
        record.syscall == OPENAT && record.args.len() >= 2 && record.args[1] == SyscallArg::Str(
            path,
        ) ==> model::opened_files(infos.push(record)) == model::opened_files(infos).push(path),
        record.syscall != OPENAT ==> model::opened_files(infos.push(record)) == model::opened_files(
            infos,
        ),
{
    assert(infos.push(record).drop_last() =~= infos);
}

/// The list of read files grows by the file behind the first argument of each call of `read` that
/// returned a number of at least one, and by no other call.
pub proof fn read_files_grow_by_read(
    infos: Seq<InfoView>,
    record: InfoView,
    value: i64,
    path: String,
)
    ensures
        ({
            let reads = record.syscall == READ && (record.result matches RetCode::Success(count)
                && count >= 1);
            let has_fd = record.args.len() >= 1 && record.args[0] == SyscallArg::Int(value);
            let after = model::read_files(infos.push(record));
            &&& model::read_files(Seq::empty()).len() == 0
            &&& !reads ==> after == model::read_files(infos)
            &&& reads && has_fd && record.fds.get(value as i32) == Some(FdType::File(path))
                ==> after == model::read_files(infos).push(path)
            &&& reads && has_fd && !(record.fds.get(value as i32) matches Some(FdType::File(_)))
                ==> after == model::read_files(infos)
        }),
{
    assert(infos.push(record).drop_last() =~= infos);
}

/// The list of written files grows by the file behind the first argument of each call of `write`,
/// and by no other call.
pub proof fn written_files_grow_by_write(
    infos: Seq<InfoView>,
    record: InfoView,
    value: i64,
    path: String,
)
    ensures
        ({
            let writes = record.syscall == WRITE;
            let has_fd = record.args.len() >= 1 && record.args[0] == SyscallArg::Int(value);
            let after = model::written_files(infos.push(record));
            &&& model::written_files(Seq::empty()).len() == 0
            &&& !writes ==> after == model::written_files(infos)
            &&& writes && has_fd && record.fds.get(value as i32) == Some(FdType::File(path))
                ==> after == model::written_files(infos).push(path)
            &&& writes && has_fd && !(record.fds.get(value as i32) matches Some(FdType::File(_)))
                ==> after == model::written_files(infos)
        }),
{
    assert(infos.push(record).drop_last() =~= infos);
}

/// The files can be listed if and only if every call of `openat` has a path, and every call of
/// `read` that read something and every call of `write` has a number first.
pub proof fn files_can_be_listed(infos: Seq<InfoView>)
    ensures
        model::opens_have_paths(infos) <==> forall|i: int|
            0 <= i < infos.len() && (#[trigger] infos[i]).syscall == OPENAT ==> infos[i].args.len()
                >= 2 && infos[i].args[1] is Str,
        model::reads_have_fds(infos) <==> forall|i: int|
            0 <= i < infos.len() && (#[trigger] infos[i]).syscall == READ && (
            infos[i].result matches RetCode::Success(count) && count >= 1) ==> infos[i].args.len()
                >= 1 && infos[i].args[0] is Int,
        model::writes_have_fds(infos) <==> forall|i: int|
            0 <= i < infos.len() && (#[trigger] infos[i]).syscall == WRITE ==> infos[i].args.len()
                >= 1 && infos[i].args[0] is Int,
{
}

/// A call of `read` that ends with a number from 1 to `0x8000` in the return register adds the
/// file behind its descriptor to the files read, and one that ends otherwise adds none.
pub proof fn read_is_listed_from_the_register(
    trace: TraceState,
    run: RunState,
    request: LogRequest,
    registers: Registers,
    args: SyscallArgs,
    fd: i64,
    path: String,
)
    requires
        run.phase == (Phase::LogRegisters { request }),
        request.args is None,
        !trace.report.summary_only,
        registers.orig_rax == READ,
        args.0@.len() >= 1,
        args.0@[0] == SyscallArg::Int(fd),
        trace.tables[request.pid].get(fd as i32) == Some(FdType::File(path)),
    ensures
        ({
            let step = model::next(trace, run, Event::Registers(Some(registers)));
            let done = model::next(step.trace, step.run, Event::Args(args));
            &&& 1 <= registers.rax && registers.rax <= 0x8000 ==> model::read_files(
                done.trace.infos,
            ) == model::read_files(trace.infos).push(path)
            &&& registers.rax == 0 || registers.rax > 0x8000 ==> model::read_files(done.trace.infos)
                == model::read_files(trace.infos)
        }),
{
    call_is_recorded(trace, run, request, registers, args, 0);
    let record = record_of(trace, request, registers, args);
    syscall_info::outcome_follows_the_register(registers.rax);
    read_files_grow_by_read(trace.infos, record, fd, path);
}

/// A call of `write` adds the file behind its descriptor to the files written to, whatever the
/// return register holds.
pub proof fn write_is_listed_from_the_register(
    trace: TraceState,
    run: RunState,
    request: LogRequest,
    registers: Registers,
    args: SyscallArgs,
    fd: i64,
    path: String,
)
    requires
        run.phase == (Phase::LogRegisters { request }),
        request.args is None,
        !trace.report.summary_only,
        registers.orig_rax == WRITE,
        args.0@.len() >= 1,
        args.0@[0] == SyscallArg::Int(fd),
        trace.tables[request.pid].get(fd as i32) == Some(FdType::File(path)),
    ensures
        ({
            let step = model::next(trace, run, Event::Registers(Some(registers)));
            let done = model::next(step.trace, step.run, Event::Args(args));
            model::written_files(done.trace.infos) == model::written_files(trace.infos).push(path)
        }),
{
    call_is_recorded(trace, run, request, registers, args, 0);
    let record = record_of(trace, request, registers, args);
    written_files_grow_by_write(trace.infos, record, fd, path);
}

/// A call of `openat` that ends with a number up to `0x8000` in the return register gives that
/// descriptor of its process the path that it was called with; and the path is listed, whatever
/// the register holds.
pub proof fn open_is_followed_from_the_register(
    trace: TraceState,
    run: RunState,
    request: LogRequest,
    registers: Registers,
    args: SyscallArgs,
    path: String,
)
    requires
        run.phase == (Phase::LogRegisters { request }),
        request.args is None,
        !trace.report.summary_only,
        registers.orig_rax == OPENAT,
        args.0@.len() >= 2,
        args.0@[1] == SyscallArg::Str(path),
    ensures
        ({
            let step = model::next(trace, run, Event::Registers(Some(registers)));
            let done = model::next(step.trace, step.run, Event::Args(args));
            &&& model::opened_files(done.trace.infos) == model::opened_files(trace.infos).push(path)
            &&& registers.rax <= 0x8000 ==> done.trace.tables[request.pid].get(
                registers.rax as i32,
            ) == Some(FdType::File(path))
        }),
{
    call_is_recorded(trace, run, request, registers, args, 0);
    let record = record_of(trace, request, registers, args);
    syscall_info::outcome_follows_the_register(registers.rax);
    opened_files_grow_by_openat(trace.infos, record, path);
    if registers.rax <= 0x8000 {
        descriptors::opened_file_stands_behind_its_descriptor(
            trace.tables[request.pid],
            OPENAT,
            args.0@,
            registers.rax as i32,
            path,
        );
    }
}

/// The number of the call that a process is in is what the register holds, if it fits in 32 bits;
/// it can be read if the table has it, or it does not fit.
pub proof fn number_is_read_off_the_register(registers: Registers)
    ensures
        match model::syscall_of(registers) {
            Ok(number) => number == registers.orig_rax,
            Err(error) => registers.orig_rax > 0xffff_ffff && error == (
            TraceError::InvalidSyscall { register: registers.orig_rax }),
        },
        registers.orig_rax > 0xffff_ffff <==> model::syscall_of(registers) is Err,
        model::is_decodable(registers) <==> registers.orig_rax > 0xffff_ffff || registers.orig_rax
            <= 334 || (424 <= registers.orig_rax && registers.orig_rax <= 461),
{
}

/// Only the answer to what was asked for last is accepted, and none once a run is over.
pub proof fn only_answers_are_accepted(trace: TraceState, run: RunState, event: Event)
    requires
        model::is_acceptable(trace, run, event),
    ensures
        !(run.phase is Finished),
        event is Status <==> run.phase is Waiting && !(event is Failed),
        event is Message <==> run.phase is EventMessage && !(event is Failed),
        event is Registers <==> run.phase is TrapRegisters || run.phase is LogRegisters || run.phase
            is ExecRegisters || run.phase is ExitRegisters || run.phase is EntryRegisters,
        event is Args <==> run.phase is TrapArgs || run.phase is LogArgs || run.phase is ExecArgs
            || run.phase is EntryArgs,
        run.phase is Warning ==> event is Done,
{
}

/// Once the line on attempts that were held back is written, the call can be logged if its time
/// has room for it, its process has a table, and the arguments that are kept of it are of the
/// right kinds.
pub proof fn call_can_be_logged_after_its_line(trace: TraceState, run: RunState, entry: LogEntry)
    requires
        run.phase == (Phase::LogOutput { entry }),
        entry.timing matches Some((start, end)) ==> trace.stats[entry.sysno].time
            + end.nanos_since(start) <= 18_446_744_073_709_551_615_999_999_999,
        trace.report.summary_only || trace.tables.contains_key(entry.pid),
        trace.report.summary_only || (entry.args matches Some(args) ==> descriptors::call_is_valid(
            trace.tables[entry.pid],
            entry.sysno,
            args.0@,
            entry.code,
        )),
    ensures
        model::is_acceptable(trace, run, Event::Done),
{
}

} // verus!
