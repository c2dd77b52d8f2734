//! The tracer as a state machine: its states, and what each event makes of them.

use vstd::prelude::*;

use crate::descriptors;
use crate::protocol::{
    Action, Event, Line, LogEntry, LogRequest, Phase, Timestamp, TraceError, WaitStatus,
    PTRACE_EVENT_EXEC, PTRACE_EVENT_EXIT, PTRACE_SYSCALL_INFO_EXIT, SIGCHLD, SIGSTOP, SIGTRAP,
};
use crate::protocol;
use crate::syscall_info::{FdType, InfoView, Registers, RetCode, SyscallArg, SyscallArgs};
use crate::syscall_info;
use crate::sysno::{SyscallStats, EXECVE};
use crate::sysno;

verus! {

/// The most nanoseconds that a duration can hold.
pub const MAX_DURATION: u128 = 18_446_744_073_709_551_615_999_999_999;

/// Which parts of the activity are reported.
#[derive(Clone, Copy, Debug, PartialEq)]
pub struct ReportOptions {
    /// The activity is reported in another format, and no summary is written.
    pub json: bool,
    /// A summary is written at the end.
    pub summary: bool,
    /// A summary is written at the end, and no call is recorded.
    pub summary_only: bool,
}

/// What a tracer holds.
#[verifier::ext_equal]
pub struct TraceState {
    /// The process that was started to be traced.
    pub pid: i32,
    pub follow_forks: bool,
    pub collapse_exec_retries: bool,
    pub report: ReportOptions,
    /// What was counted, by system call.
    pub stats: Map<u32, SyscallStats>,
    /// The recorded calls, in the order in which they were logged.
    pub infos: Seq<InfoView>,
    /// The descriptors that are held, by process.
    pub tables: Map<i32, Map<i32, FdType>>,
    /// Failed attempts to run a program that were not shown, by process.
    pub retries: Map<i32, usize>,
}

/// What a run of the tracer holds.
#[verifier::ext_equal]
pub struct RunState {
    pub phase: Phase,
    pub options_initialized: bool,
    /// The registers at the start of the last call of a process: the arguments of a call are
    /// read with those of the process that made it, whatever others are doing.
    pub entry_regs: Map<i32, Registers>,
    /// When the call that a process is in started; only these processes are followed.
    pub start_times: Map<i32, Option<Timestamp>>,
    /// The arguments of calls of `exec`, read at their start.
    pub pending_args: Map<i32, Option<SyscallArgs>>,
}

/// One step of a run: what is held after it, and what is asked for next.
#[verifier::ext_equal]
pub struct Step {
    pub trace: TraceState,
    pub run: RunState,
    pub action: Action,
}

/// What a tracer holds before its first step.
pub open spec fn initial_trace(
    pid: i32,
    follow_forks: bool,
    collapse_exec_retries: bool,
) -> TraceState {
    TraceState {
        pid,
        follow_forks,
        collapse_exec_retries,
        report: ReportOptions { json: false, summary: false, summary_only: false },
        stats: sysno::zero_stats(),
        infos: Seq::empty(),
        tables: Map::empty().insert(pid, Map::empty()),
        retries: Map::empty(),
    }
}

/// What a run holds before its first step: it waits, and the tracee is between two calls.
pub open spec fn initial_run(pid: i32) -> RunState {
    RunState {
        phase: Phase::Waiting,
        options_initialized: false,
        entry_regs: Map::empty(),
        start_times: Map::empty().insert(pid, None),
        pending_args: Map::empty().insert(pid, None),
    }
}

/// The number of the system call that a tracee is in.
pub open spec fn syscall_of(registers: Registers) -> Result<u32, TraceError> {
    if registers.orig_rax <= u32::MAX {
        Ok(registers.orig_rax as u32)
    } else {
        Err(TraceError::InvalidSyscall { register: registers.orig_rax })
    }
}

/// The registers hold the number of a system call, or one that is too large for any.
pub open spec fn is_decodable(registers: Registers) -> bool {
    registers.orig_rax <= u32::MAX ==> sysno::is_sysno(registers.orig_rax as u32)
}

/// The registers, if there are any, belong to a call of `exec`.
pub open spec fn exec_registers(registers: Option<Registers>) -> bool {
    match registers {
        Some(registers) => match syscall_of(registers) {
            Ok(sysno) => sysno::is_exec(sysno),
            Err(_) => false,
        },
        None => false,
    }
}

/// The outcome of a call. A call to exit does not return, and what its register holds is left
/// out of account.
pub open spec fn outcome(sysno: u32, registers: Registers) -> RetCode {
    if sysno::is_exit(sysno) {
        syscall_info::ret_code(0)
    } else {
        syscall_info::ret_code(registers.rax)
    }
}

/// How long a call took, where its start and its end are known.
pub open spec fn elapsed(timing: Option<(Timestamp, Timestamp)>) -> u128 {
    match timing {
        Some((start, end)) => end.nanos_since(start),
        None => 0,
    }
}

/// The arguments that were read at the start of a call of `exec`, and are not used yet.
pub open spec fn pending(run: RunState, pid: i32) -> Option<SyscallArgs> {
    if run.pending_args.contains_key(pid) {
        run.pending_args[pid]
    } else {
        None
    }
}

/// One call is counted, as passed or as failed; a call to exit is not.
pub open spec fn counted(trace: TraceState, sysno: u32, code: RetCode) -> TraceState {
    let stats = trace.stats[sysno];
    if sysno::is_exit(sysno) {
        trace
    } else if code is Failure {
        TraceState {
            stats: trace.stats.insert(
                sysno,
                SyscallStats { fail: (stats.fail + 1) as u64, ..stats },
            ),
            ..trace
        }
    } else {
        TraceState {
            stats: trace.stats.insert(
                sysno,
                SyscallStats { pass: (stats.pass + 1) as u64, ..stats },
            ),
            ..trace
        }
    }
}

/// Time is added to what a call took so far.
pub open spec fn timed(trace: TraceState, sysno: u32, nanos: u128) -> TraceState {
    let stats = trace.stats[sysno];
    TraceState {
        stats: trace.stats.insert(
            sysno,
            SyscallStats { time: (stats.time + nanos) as u128, ..stats },
        ),
        ..trace
    }
}

/// What is recorded of a call: with the descriptors that its process holds before it.
pub open spec fn info_of(
    trace: TraceState,
    pid: i32,
    sysno: u32,
    args: Seq<SyscallArg>,
    code: RetCode,
    duration: u128,
) -> InfoView {
    InfoView {
        typ: "SYSCALL"@,
        pid,
        syscall: sysno,
        args,
        result: code,
        duration,
        fds: trace.tables[pid],
    }
}

/// A call has its effect on the descriptors of its process.
pub open spec fn with_effect(trace: TraceState, info: InfoView) -> TraceState {
    TraceState {
        tables: trace.tables.insert(
            info.pid,
            descriptors::fds_after(
                trace.tables[info.pid],
                info.syscall,
                info.args,
                info.result,
            ),
        ),
        ..trace
    }
}

/// A call is recorded, and has its effect on the descriptors of its process.
pub open spec fn stored(trace: TraceState, info: InfoView) -> TraceState {
    TraceState { infos: trace.infos.push(info), ..with_effect(trace, info) }
}

/// A process is given a table of descriptors, if it has none: it starts out with those of the
/// process that was started to be traced.
pub open spec fn with_table(trace: TraceState, pid: i32) -> TraceState {
    if trace.tables.contains_key(pid) {
        trace
    } else {
        TraceState { tables: trace.tables.insert(pid, trace.tables[trace.pid]), ..trace }
    }
}

/// A call can be recorded: its process has a table, and its arguments and outcome are of the
/// right kinds.
pub open spec fn is_storable(
    trace: TraceState,
    pid: i32,
    sysno: u32,
    args: Seq<SyscallArg>,
    code: RetCode,
) -> bool {
    &&& trace.tables.contains_key(pid)
    &&& descriptors::call_is_valid(trace.tables[pid], sysno, args, code)
}

/// The run goes on to wait for a change of state.
pub open spec fn wait(trace: TraceState, run: RunState) -> Step {
    Step { trace, run: RunState { phase: Phase::Waiting, ..run }, action: Action::Wait }
}

/// A tracee is resumed up to its next system call.
pub open spec fn resume(trace: TraceState, run: RunState, pid: i32, deliver: Option<i32>) -> Step {
    Step {
        trace,
        run: RunState { phase: Phase::Resuming { pid }, ..run },
        action: Action::Resume { pid, deliver },
    }
}

/// A run ends with an error.
pub open spec fn fail(trace: TraceState, run: RunState, error: TraceError) -> Step {
    Step { trace, run: RunState { phase: Phase::Finished, ..run }, action: Action::Fail(error) }
}

/// A run ends with the error that came of what was asked for.
pub open spec fn propagate(trace: TraceState, run: RunState) -> Step {
    Step { trace, run: RunState { phase: Phase::Finished, ..run }, action: Action::Propagate }
}

/// A run is at its end: the summary is written where one is wanted.
pub open spec fn finish(trace: TraceState, run: RunState) -> Step {
    if trace.report.json || !(trace.report.summary_only || trace.report.summary) {
        Step { trace, run: RunState { phase: Phase::Finished, ..run }, action: Action::Finish }
    } else if trace.report.summary_only {
        Step {
            trace,
            run: RunState { phase: Phase::Reporting, ..run },
            action: Action::Report { gap: false },
        }
    } else {
        Step {
            trace,
            run: RunState { phase: Phase::SummaryGap, ..run },
            action: Action::Write(Line::Blank),
        }
    }
}

/// A call is to be logged: its registers are asked for.
pub open spec fn log(trace: TraceState, run: RunState, request: LogRequest) -> Step {
    Step {
        trace,
        run: RunState { phase: Phase::LogRegisters { request }, ..run },
        action: Action::GetRegisters { pid: request.pid },
    }
}

/// A call was logged: its process is resumed.
pub open spec fn logged(trace: TraceState, run: RunState, pid: i32, ends_call: bool) -> Step {
    resume(
        trace,
        RunState {
            start_times: if ends_call {
                run.start_times.insert(pid, None)
            } else {
                run.start_times
            },
            ..run
        },
        pid,
        None,
    )
}

/// A call that was counted is timed, and recorded where calls are recorded.
pub open spec fn recorded(trace: TraceState, run: RunState, entry: LogEntry) -> Step {
    let duration = elapsed(entry.timing);
    let after = if entry.timing is Some {
        timed(trace, entry.sysno, duration)
    } else {
        trace
    };
    if trace.report.summary_only {
        logged(after, run, entry.pid, entry.ends_call)
    } else {
        match entry.args {
            Some(args) => logged(
                stored(
                    after,
                    info_of(after, entry.pid, entry.sysno, args.0@, entry.code, duration),
                ),
                run,
                entry.pid,
                entry.ends_call,
            ),
            None => Step {
                trace: after,
                run: RunState {
                    phase: Phase::LogArgs {
                        pid: entry.pid,
                        sysno: entry.sysno,
                        code: entry.code,
                        duration,
                        ends_call: entry.ends_call,
                    },
                    ..run
                },
                action: Action::ParseArgs {
                    pid: entry.pid,
                    sysno: entry.sysno,
                    registers: entry.registers,
                },
            },
        }
    }
}

/// `recorded` can be done.
pub open spec fn is_recordable(trace: TraceState, entry: LogEntry) -> bool {
    &&& entry.timing is Some ==> trace.stats[entry.sysno].time + elapsed(entry.timing)
        <= MAX_DURATION
    &&& !trace.report.summary_only ==> trace.tables.contains_key(entry.pid)
    &&& !trace.report.summary_only && entry.args is Some ==> is_storable(
        trace,
        entry.pid,
        entry.sysno,
        (entry.args->0).0@,
        entry.code,
    )
}

/// What is recorded of a call that is logged, once its registers are known.
pub open spec fn entry_of(request: LogRequest, sysno: u32, registers: Registers) -> LogEntry {
    LogEntry {
        pid: request.pid,
        sysno,
        code: outcome(sysno, registers),
        registers: match request.entry_regs {
            Some(entry_regs) => entry_regs,
            None => registers,
        },
        args: request.args,
        timing: request.timing,
        ends_call: request.ends_call,
    }
}

/// The attempt to run a program failed, and is not to be shown.
pub open spec fn is_collapsed(trace: TraceState, sysno: u32, code: RetCode) -> bool {
    &&& trace.collapse_exec_retries
    &&& sysno::is_exec(sysno)
    &&& code is Failure
}

/// An attempt to run a program succeeded, after others that were not shown.
pub open spec fn ends_retries(trace: TraceState, pid: i32, sysno: u32, code: RetCode) -> bool {
    &&& trace.collapse_exec_retries
    &&& sysno::is_exec(sysno)
    &&& code !is Failure
    &&& trace.retries.contains_key(pid)
}

/// How many attempts to run a program were not shown.
pub open spec fn retries_of(trace: TraceState, pid: i32) -> usize {
    if trace.retries.contains_key(pid) {
        trace.retries[pid]
    } else {
        0
    }
}

/// A call whose registers are known is counted; an attempt to run a program that failed may
/// be left at that, and one that succeeded may be preceded by a line on those that failed.
pub open spec fn log_entry(trace: TraceState, run: RunState, entry: LogEntry) -> Step {
    let after = counted(trace, entry.sysno, entry.code);
    let count = retries_of(trace, entry.pid);
    if is_collapsed(trace, entry.sysno, entry.code) {
        logged(
            TraceState { retries: trace.retries.insert(entry.pid, (count + 1) as usize), ..after },
            run,
            entry.pid,
            entry.ends_call,
        )
    } else if ends_retries(trace, entry.pid, entry.sysno, entry.code) {
        let shown = TraceState { retries: trace.retries.remove(entry.pid), ..after };
        if count > 0 {
            Step {
                trace: shown,
                run: RunState { phase: Phase::LogOutput { entry }, ..run },
                action: Action::Write(Line::Collapsed { pid: entry.pid, count }),
            }
        } else {
            recorded(shown, run, entry)
        }
    } else {
        recorded(after, run, entry)
    }
}

/// `log_entry` can be done.
pub open spec fn is_loggable(trace: TraceState, entry: LogEntry) -> bool {
    let stats = trace.stats[entry.sysno];
    &&& !sysno::is_exit(entry.sysno) ==> if entry.code is Failure {
        stats.fail < u64::MAX
    } else {
        stats.pass < u64::MAX
    }
    &&& if is_collapsed(trace, entry.sysno, entry.code) {
        retries_of(trace, entry.pid) < usize::MAX
    } else if ends_retries(trace, entry.pid, entry.sysno, entry.code) && retries_of(
        trace,
        entry.pid,
    ) > 0 {
        true
    } else {
        is_recordable(trace, entry)
    }
}

/// The registers of a call that is to be logged are known, or could not be read.
pub open spec fn on_log_registers(
    trace: TraceState,
    run: RunState,
    request: LogRequest,
    registers: Option<Registers>,
) -> Step {
    let failure = |error: TraceError|
        Step {
            trace,
            run: RunState {
                phase: Phase::Warning { pid: request.pid, ends_call: request.ends_call },
                ..run
            },
            action: Action::Warn(error),
        };
    match registers {
        None => failure(TraceError::Registers { pid: request.pid }),
        Some(registers) => match syscall_of(registers) {
            Err(error) => failure(error),
            Ok(sysno) => log_entry(trace, run, entry_of(request, sysno, registers)),
        },
    }
}

/// A call of `exec` succeeded: it is recorded, and its process is resumed.
pub open spec fn exec_logged(
    trace: TraceState,
    run: RunState,
    pid: i32,
    args: Seq<SyscallArg>,
) -> Step {
    resume(
        stored(trace, info_of(trace, pid, EXECVE, args, RetCode::Success(0), 0)),
        run,
        pid,
        None,
    )
}

/// A tracee was stopped by a signal.
pub open spec fn on_stopped(trace: TraceState, run: RunState, pid: i32, signal: i32) -> Step {
    if signal == SIGTRAP {
        let args = pending(run, pid);
        let rest = RunState {
            entry_regs: run.entry_regs.remove(pid),
            pending_args: run.pending_args.remove(pid),
            ..run
        };
        match run.entry_regs.get(pid) {
            Some(entry_regs) => log(
                trace,
                rest,
                LogRequest {
                    pid,
                    entry_regs: Some(entry_regs),
                    args,
                    timing: None,
                    ends_call: false,
                },
            ),
            None => Step {
                trace,
                run: RunState { phase: Phase::TrapRegisters { pid, args }, ..rest },
                action: Action::GetRegisters { pid },
            },
        }
    } else if signal == SIGSTOP {
        if trace.follow_forks {
            let followed = RunState { start_times: run.start_times.insert(pid, None), ..run };
            if trace.report.summary_only {
                resume(with_table(trace, pid), followed, pid, None)
            } else {
                Step {
                    trace: with_table(trace, pid),
                    run: RunState { phase: Phase::Attaching { pid }, ..followed },
                    action: Action::Write(Line::Attaching { pid }),
                }
            }
        } else {
            resume(trace, run, pid, None)
        }
    } else if signal == SIGCHLD {
        resume(trace, run, pid, Some(signal))
    } else {
        Step {
            trace,
            run: RunState { phase: Phase::Continuing, ..run },
            action: Action::Continue { pid, signal },
        }
    }
}

/// A tracee was stopped by a `ptrace` event.
pub open spec fn on_ptrace_event(trace: TraceState, run: RunState, pid: i32, code: i32) -> Step {
    if code == PTRACE_EVENT_EXEC {
        let rest = RunState { pending_args: run.pending_args.remove(pid), ..run };
        match pending(run, pid) {
            Some(args) => exec_logged(trace, rest, pid, args.0@),
            None => Step {
                trace,
                run: RunState { phase: Phase::ExecRegisters { pid }, ..rest },
                action: Action::GetRegisters { pid },
            },
        }
    } else if code == PTRACE_EVENT_EXIT {
        Step {
            trace,
            run: RunState { phase: Phase::ExitRegisters { pid }, ..run },
            action: Action::GetRegisters { pid },
        }
    } else {
        resume(trace, run, pid, None)
    }
}

/// A traced process changed its state.
pub open spec fn on_status(trace: TraceState, run: RunState, status: WaitStatus) -> Step {
    match status {
        WaitStatus::Stopped { pid, signal } => on_stopped(trace, run, pid, signal),
        WaitStatus::Exited { pid, code } => if pid == trace.pid {
            finish(trace, run)
        } else {
            wait(trace, run)
        },
        WaitStatus::PtraceEvent { pid, signal, code } => on_ptrace_event(trace, run, pid, code),
        WaitStatus::PtraceSyscall { pid } => Step {
            trace,
            run: RunState { phase: Phase::EventMessage { pid }, ..run },
            action: Action::GetEvent { pid },
        },
        WaitStatus::Signaled { pid, signal, core_dumped } => Step {
            trace,
            run: RunState { phase: Phase::Terminating, ..run },
            action: Action::Write(Line::Terminated { pid, signal, core_dumped }),
        },
        WaitStatus::Continued { pid } => wait(trace, run),
        WaitStatus::StillAlive => wait(trace, run),
    }
}

/// `on_status` can be done.
pub open spec fn is_status_valid(trace: TraceState, run: RunState, status: WaitStatus) -> bool {
    match status {
        WaitStatus::PtraceEvent { pid, signal, code } => code == PTRACE_EVENT_EXEC && pending(
            run,
            pid,
        ) is Some ==> trace.tables.contains_key(pid),
        WaitStatus::Signaled { pid, signal, core_dumped } => protocol::is_signal(signal),
        _ => true,
    }
}

/// A tracee stopped at the start or at the end of a system call.
pub open spec fn on_message(
    trace: TraceState,
    run: RunState,
    pid: i32,
    message: i64,
    now: Timestamp,
) -> Step {
    if !run.start_times.contains_key(pid) {
        fail(trace, run, TraceError::NoStartTime { pid })
    } else if message as u8 == PTRACE_SYSCALL_INFO_EXIT {
        log(
            trace,
            RunState { pending_args: run.pending_args.remove(pid), ..run },
            LogRequest {
                pid,
                entry_regs: run.entry_regs.get(pid),
                args: pending(run, pid),
                timing: match run.start_times[pid] {
                    Some(start) => Some((start, now)),
                    None => None,
                },
                ends_call: true,
            },
        )
    } else {
        Step {
            trace,
            run: RunState {
                phase: Phase::EntryRegisters { pid },
                start_times: run.start_times.insert(pid, Some(now)),
                ..run
            },
            action: Action::GetRegisters { pid },
        }
    }
}

/// The registers at the start of a system call are known, or could not be read.
pub open spec fn on_entry_registers(
    trace: TraceState,
    run: RunState,
    pid: i32,
    registers: Option<Registers>,
) -> Step {
    match registers {
        None => fail(trace, run, TraceError::Registers { pid }),
        Some(registers) => {
            let entered = RunState {
                entry_regs: run.entry_regs.insert(pid, registers),
                ..run
            };
            match syscall_of(registers) {
                Err(_) => resume(trace, entered, pid, None),
                Ok(sysno) => if sysno::is_exec(sysno) {
                    Step {
                        trace,
                        run: RunState { phase: Phase::EntryArgs { pid }, ..entered },
                        action: Action::ParseArgs { pid, sysno, registers },
                    }
                } else {
                    resume(
                        trace,
                        RunState {
                            pending_args: run.pending_args.insert(pid, None),
                            ..entered
                        },
                        pid,
                        None,
                    )
                },
            }
        },
    }
}

/// A call that is logged where no time was taken, and whose process is in no call.
pub open spec fn untimed_request(
    pid: i32,
    entry_regs: Option<Registers>,
    args: Option<SyscallArgs>,
) -> LogRequest {
    LogRequest { pid, entry_regs, args, timing: None, ends_call: false }
}

/// The registers of a tracee that called `exec` are known, or could not be read.
pub open spec fn on_trap_registers(
    trace: TraceState,
    run: RunState,
    pid: i32,
    args: Option<SyscallArgs>,
    registers: Option<Registers>,
) -> Step {
    if exec_registers(registers) {
        Step {
            trace,
            run: RunState { phase: Phase::TrapArgs { pid, registers: registers->0 }, ..run },
            action: Action::ParseArgs {
                pid,
                sysno: syscall_of(registers->0)->Ok_0,
                registers: registers->0,
            },
        }
    } else {
        log(trace, run, untimed_request(pid, None, args))
    }
}

/// The registers of a tracee whose `exec` succeeded are known, or could not be read.
pub open spec fn on_exec_registers(
    trace: TraceState,
    run: RunState,
    pid: i32,
    registers: Option<Registers>,
) -> Step {
    if exec_registers(registers) {
        Step {
            trace,
            run: RunState { phase: Phase::ExecArgs { pid }, ..run },
            action: Action::ParseArgs {
                pid,
                sysno: syscall_of(registers->0)->Ok_0,
                registers: registers->0,
            },
        }
    } else {
        resume(trace, run, pid, None)
    }
}

/// The registers of a tracee that is about to exit are known, or could not be read.
pub open spec fn on_exit_registers(
    trace: TraceState,
    run: RunState,
    pid: i32,
    registers: Option<Registers>,
) -> Step {
    match registers {
        None => fail(trace, run, TraceError::Registers { pid }),
        Some(registers) => if registers.orig_rax == sysno::EXIT || registers.orig_rax
            == sysno::EXIT_GROUP {
            log(
                trace,
                RunState { pending_args: run.pending_args.remove(pid), ..run },
                untimed_request(pid, None, pending(run, pid)),
            )
        } else {
            resume(trace, run, pid, None)
        },
    }
}

/// What was asked for failed: a run does not go on after that.
pub open spec fn on_failure(trace: TraceState, run: RunState) -> Step {
    match run.phase {
        Phase::Resuming { pid } => fail(trace, run, TraceError::Resume { pid }),
        _ => propagate(trace, run),
    }
}

/// What was asked for is done.
pub open spec fn on_done(trace: TraceState, run: RunState) -> Step {
    match run.phase {
        Phase::SettingOptions { status } => on_status(
            trace,
            RunState { options_initialized: true, ..run },
            status,
        ),
        Phase::LogOutput { entry } => recorded(trace, run, entry),
        Phase::Warning { pid, ends_call } => logged(trace, run, pid, ends_call),
        Phase::Attaching { pid } => resume(trace, run, pid, None),
        Phase::Terminating => finish(trace, run),
        Phase::SummaryGap => Step {
            trace,
            run: RunState { phase: Phase::Reporting, ..run },
            action: Action::Report { gap: !trace.report.summary_only },
        },
        Phase::Reporting => Step {
            trace,
            run: RunState { phase: Phase::Finished, ..run },
            action: Action::Finish,
        },
        _ => wait(trace, run),
    }
}

/// The registers that were asked for are known, or could not be read.
pub open spec fn on_registers(
    trace: TraceState,
    run: RunState,
    registers: Option<Registers>,
) -> Step {
    match run.phase {
        Phase::TrapRegisters { pid, args } => on_trap_registers(trace, run, pid, args, registers),
        Phase::LogRegisters { request } => on_log_registers(trace, run, request, registers),
        Phase::ExecRegisters { pid } => on_exec_registers(trace, run, pid, registers),
        Phase::ExitRegisters { pid } => on_exit_registers(trace, run, pid, registers),
        Phase::EntryRegisters { pid } => on_entry_registers(trace, run, pid, registers),
        _ => propagate(trace, run),
    }
}

/// The arguments that were asked for are known.
pub open spec fn on_args(trace: TraceState, run: RunState, args: SyscallArgs) -> Step {
    match run.phase {
        Phase::TrapArgs { pid, registers } => log(
            trace,
            run,
            untimed_request(pid, Some(registers), Some(args)),
        ),
        Phase::LogArgs { pid, sysno, code, duration, ends_call } => logged(
            stored(trace, info_of(trace, pid, sysno, args.0@, code, duration)),
            run,
            pid,
            ends_call,
        ),
        Phase::ExecArgs { pid } => exec_logged(trace, run, pid, args.0@),
        Phase::EntryArgs { pid } => resume(
            trace,
            RunState { pending_args: run.pending_args.insert(pid, Some(args)), ..run },
            pid,
            None,
        ),
        _ => propagate(trace, run),
    }
}

/// What a run makes of an event.
pub open spec fn next(trace: TraceState, run: RunState, event: Event) -> Step {
    match event {
        Event::Status(status) => if run.options_initialized {
            on_status(trace, run, status)
        } else {
            Step {
                trace,
                run: RunState { phase: Phase::SettingOptions { status }, ..run },
                action: Action::InitOptions { pid: trace.pid, follow_forks: trace.follow_forks },
            }
        },
        Event::Done => on_done(trace, run),
        Event::Failed => on_failure(trace, run),
        Event::Registers(registers) => on_registers(trace, run, registers),
        Event::Args(args) => on_args(trace, run, args),
        Event::Message { message, now } => match run.phase {
            Phase::EventMessage { pid } => on_message(trace, run, pid, message, now),
            _ => propagate(trace, run),
        },
    }
}

/// The event answers what was asked for last.
pub open spec fn is_answer(phase: Phase, event: Event) -> bool {
    match event {
        Event::Status(_) => phase is Waiting,
        Event::Done => phase is SettingOptions || phase is LogOutput || phase is Warning
            || phase is Attaching || phase is Resuming || phase is Continuing
            || phase is Terminating || phase is SummaryGap || phase is Reporting,
        Event::Failed => phase is Waiting || phase is SettingOptions || phase is LogOutput
            || phase is Attaching || phase is Resuming || phase is Continuing
            || phase is Terminating || phase is SummaryGap || phase is Reporting
            || phase is EventMessage,
        Event::Registers(_) => phase is TrapRegisters || phase is LogRegisters
            || phase is ExecRegisters || phase is ExitRegisters || phase is EntryRegisters,
        Event::Args(_) => phase is TrapArgs || phase is LogArgs || phase is ExecArgs
            || phase is EntryArgs,
        Event::Message { .. } => phase is EventMessage,
    }
}

/// The registers in an event can be read as a system call, and the call can be logged.
pub open spec fn are_registers_valid(
    trace: TraceState,
    phase: Phase,
    registers: Registers,
) -> bool {
    match phase {
        Phase::ExitRegisters { .. } => true,
        Phase::LogRegisters { request } => {
            &&& is_decodable(registers)
            &&& match syscall_of(registers) {
                Ok(sysno) => is_loggable(trace, entry_of(request, sysno, registers)),
                Err(_) => true,
            }
        },
        _ => is_decodable(registers),
    }
}

/// The event answers what was asked for last, and what it brings is within the limits of
/// what a tracer can record.
pub open spec fn is_acceptable(trace: TraceState, run: RunState, event: Event) -> bool {
    &&& is_answer(run.phase, event)
    &&& match event {
        Event::Status(status) => run.options_initialized ==> is_status_valid(trace, run, status),
        Event::Done => match run.phase {
            Phase::SettingOptions { status } => is_status_valid(trace, run, status),
            Phase::LogOutput { entry } => is_recordable(trace, entry),
            _ => true,
        },
        Event::Registers(Some(registers)) => are_registers_valid(trace, run.phase, registers),
        Event::Args(args) => match run.phase {
            Phase::LogArgs { pid, sysno, code, duration, ends_call } => is_storable(
                trace,
                pid,
                sysno,
                args.0@,
                code,
            ),
            Phase::ExecArgs { pid } => trace.tables.contains_key(pid),
            _ => true,
        },
        _ => true,
    }
}

/// The call opened the file at `path`.
pub open spec fn opened(info: InfoView, path: String) -> bool {
    &&& descriptors::is_open_call(info.syscall)
    &&& descriptors::opened_fd(info.result) >= 0
    &&& descriptors::has_str(info.args, descriptors::path_index(info.syscall))
    &&& info.args[descriptors::path_index(info.syscall)]->Str_0 == path
}

/// Every descriptor stands for a file that one of the calls opened.
pub open spec fn are_opened(infos: Seq<InfoView>, fds: Map<i32, FdType>) -> bool {
    forall|fd: i32| #[trigger]
        fds.contains_key(fd) ==> fds[fd] is File && exists|i: int|
            0 <= i < infos.len() && opened(#[trigger] infos[i], fds[fd]->File_0)
}

impl TraceState {
    /// Every call is counted, and its time is one that a duration can hold; the process that was
    /// started to be traced has a table of descriptors; and a descriptor stands for a file that
    /// an earlier call opened.
    pub open spec fn is_valid(self) -> bool {
        &&& self.stats.dom() == sysno::all_members()
        &&& forall|id: u32| #[trigger]
            self.stats.contains_key(id) ==> self.stats[id].time <= MAX_DURATION
        &&& self.tables.contains_key(self.pid)
        &&& forall|pid: i32| #[trigger]
            self.tables.contains_key(pid) ==> are_opened(self.infos, self.tables[pid])
        &&& forall|i: int|
            0 <= i < self.infos.len() ==> are_opened(
                self.infos.take(i),
                (#[trigger] self.infos[i]).fds,
            )
    }
}

/// What was opened stays opened when more calls are recorded.
proof fn lemma_are_opened_after(
    infos: Seq<InfoView>,
    more: Seq<InfoView>,
    fds: Map<i32, FdType>,
)
    requires
        are_opened(infos, fds),
        infos.len() <= more.len(),
        forall|i: int| 0 <= i < infos.len() ==> infos[i] == more[i],
    ensures
        are_opened(more, fds),
{
    assert forall|fd: i32| #[trigger] fds.contains_key(fd) implies fds[fd] is File && exists|i: int|
        0 <= i < more.len() && opened(#[trigger] more[i], fds[fd]->File_0) by {
        let i = choose|i: int| 0 <= i < infos.len() && opened(#[trigger] infos[i], fds[fd]->File_0);
        assert(opened(more[i], fds[fd]->File_0));
    }
}

/// A tracer stays valid when a call is recorded.
pub proof fn lemma_stored_is_valid(
    trace: TraceState,
    pid: i32,
    sysno: u32,
    args: Seq<SyscallArg>,
    code: RetCode,
    duration: u128,
)
    requires
        trace.is_valid(),
        is_storable(trace, pid, sysno, args, code),
    ensures
        stored(trace, info_of(trace, pid, sysno, args, code, duration)).is_valid(),
{
    let info = info_of(trace, pid, sysno, args, code, duration);
    let after = stored(trace, info);
    let fds = trace.tables[pid];
    assert forall|other: i32| #[trigger] trace.tables.contains_key(other) implies are_opened(
        after.infos,
        trace.tables[other],
    ) by {
        lemma_are_opened_after(trace.infos, after.infos, trace.tables[other]);
    }
    let fds_next = after.tables[pid];
    assert forall|fd: i32| #[trigger] fds_next.contains_key(fd) implies fds_next[fd] is File
        && exists|i: int|
        0 <= i < after.infos.len() && opened(#[trigger] after.infos[i], fds_next[fd]->File_0) by {
        if descriptors::is_open_call(sysno) && descriptors::opened_fd(code) >= 0 && fd
            == descriptors::opened_fd(code) {
            assert(opened(after.infos[after.infos.len() - 1], fds_next[fd]->File_0));
        } else if descriptors::duplicates(sysno, args) && !descriptors::is_open_call(sysno)
            && sysno != sysno::CLOSE && descriptors::duplicated_fd(code) >= 0 && fd
            == descriptors::duplicated_fd(code) {
            assert(fds.contains_key(descriptors::int_arg(args, 0)));
        } else {
            assert(fds.contains_key(fd));
        }
    }
    assert forall|i: int| 0 <= i < after.infos.len() implies are_opened(
        after.infos.take(i),
        (#[trigger] after.infos[i]).fds,
    ) by {
        if i < trace.infos.len() {
            assert(after.infos.take(i) =~= trace.infos.take(i));
            assert(after.infos[i] == trace.infos[i]);
        } else {
            assert(after.infos.take(i) =~= trace.infos);
        }
    }
}

impl RunState {
    /// A call that is being logged has a number that names one.
    pub open spec fn is_valid(self) -> bool {
        match self.phase {
            Phase::LogOutput { entry } => sysno::is_sysno(entry.sysno),
            Phase::LogArgs { sysno, .. } => sysno::is_sysno(sysno),
            Phase::SettingOptions { .. } => !self.options_initialized,
            _ => true,
        }
    }
}

/// Every process that is followed has a table of descriptors, and a call is at its end only if
/// its process is followed.
pub open spec fn is_consistent(trace: TraceState, run: RunState) -> bool {
    &&& forall|pid: i32| #[trigger]
        run.start_times.contains_key(pid) ==> trace.tables.contains_key(pid)
    &&& match run.phase {
        Phase::LogRegisters { request } => request.ends_call ==> run.start_times.contains_key(
            request.pid,
        ),
        Phase::LogOutput { entry } => entry.ends_call ==> run.start_times.contains_key(entry.pid),
        Phase::LogArgs { pid, ends_call, .. } => ends_call ==> run.start_times.contains_key(pid),
        Phase::Warning { pid, ends_call } => ends_call ==> run.start_times.contains_key(pid),
        _ => true,
    }
}

/// A tracer and its run stay consistent.
pub proof fn lemma_next_is_consistent(trace: TraceState, run: RunState, event: Event)
    requires
        is_consistent(trace, run),
        is_answer(run.phase, event),
    ensures
        is_consistent(next(trace, run, event).trace, next(trace, run, event).run),
{
}

/// The file that a call of `openat` names.
pub open spec fn opened_path(info: InfoView) -> Option<String> {
    if info.syscall == sysno::OPENAT {
        Some(info.args[1]->Str_0)
    } else {
        None
    }
}

/// The file behind the descriptor in the first argument of a call, at the time of the call.
pub open spec fn file_behind(info: InfoView) -> Option<String> {
    let fd = descriptors::int_arg(info.args, 0);
    if info.fds.contains_key(fd) {
        match info.fds[fd] {
            FdType::File(path) => Some(path),
            _ => None,
        }
    } else {
        None
    }
}

/// The call read at least one byte.
pub open spec fn reads_some(info: InfoView) -> bool {
    info.syscall == sysno::READ && (info.result matches RetCode::Success(count) && count >= 1)
}

/// The file that a call read at least one byte of.
pub open spec fn read_path(info: InfoView) -> Option<String> {
    if reads_some(info) {
        file_behind(info)
    } else {
        None
    }
}

/// The file that a call was to write to.
pub open spec fn written_path(info: InfoView) -> Option<String> {
    if info.syscall == sysno::WRITE {
        file_behind(info)
    } else {
        None
    }
}

/// The paths that the calls give, in the order of the calls.
pub open spec fn paths(
    infos: Seq<InfoView>,
    path_of: spec_fn(InfoView) -> Option<String>,
) -> Seq<String>
    decreases infos.len(),
{
    if infos.len() == 0 {
        Seq::empty()
    } else {
        let before = paths(infos.drop_last(), path_of);
        match path_of(infos.last()) {
            Some(path) => before.push(path),
            None => before,
        }
    }
}

/// The files that the recorded calls of `openat` name.
pub open spec fn opened_files(infos: Seq<InfoView>) -> Seq<String> {
    paths(infos, |info: InfoView| opened_path(info))
}

/// The files that the recorded calls read from.
pub open spec fn read_files(infos: Seq<InfoView>) -> Seq<String> {
    paths(infos, |info: InfoView| read_path(info))
}

/// The files that the recorded calls wrote to.
pub open spec fn written_files(infos: Seq<InfoView>) -> Seq<String> {
    paths(infos, |info: InfoView| written_path(info))
}

/// Every recorded call of `openat` has a path.
pub open spec fn opens_have_paths(infos: Seq<InfoView>) -> bool {
    forall|i: int|
        0 <= i < infos.len() && (#[trigger] infos[i]).syscall == sysno::OPENAT
            ==> descriptors::has_str(infos[i].args, 1)
}

/// Every recorded call that read something has a descriptor.
pub open spec fn reads_have_fds(infos: Seq<InfoView>) -> bool {
    forall|i: int|
        0 <= i < infos.len() && reads_some(#[trigger] infos[i]) ==> descriptors::has_int(
            infos[i].args,
            0,
        )
}

/// Every recorded call of `write` has a descriptor.
pub open spec fn writes_have_fds(infos: Seq<InfoView>) -> bool {
    forall|i: int|
        0 <= i < infos.len() && (#[trigger] infos[i]).syscall == sysno::WRITE
            ==> descriptors::has_int(infos[i].args, 0)
}

} // verus!
