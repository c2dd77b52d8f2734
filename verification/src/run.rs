//! A run of the tracer, step by step.

use std::collections::HashMap;

use vstd::prelude::*;

use crate::model;
use crate::model::{RunState, Step, MAX_DURATION};
use crate::protocol::{
    Action, Event, Line, LogEntry, LogRequest, Phase, Timestamp, TraceError, WaitStatus,
    PTRACE_EVENT_EXEC, PTRACE_EVENT_EXIT, PTRACE_SYSCALL_INFO_EXIT, SIGCHLD, SIGSTOP, SIGTRAP,
};
use crate::syscall_info::{Registers, RetCode, SyscallArgs};
use crate::sysno;
use crate::sysno::{EXECVE, EXECVEAT, EXIT, EXIT_GROUP};
use crate::tracer::Tracer;

verus! {

/// Where a run of a tracer stands.
pub struct Run {
    phase: Phase,
    options_initialized: bool,
    entry_regs: HashMap<i32, Registers>,
    start_times: HashMap<i32, Option<Timestamp>>,
    pending_args: HashMap<i32, Option<SyscallArgs>>,
}

impl View for Run {
    type V = RunState;

    closed spec fn view(&self) -> RunState {
        RunState {
            phase: self.phase,
            options_initialized: self.options_initialized,
            entry_regs: self.entry_regs@,
            start_times: self.start_times@,
            pending_args: self.pending_args@,
        }
    }
}

/// Reads the number of the system call that a tracee is in.
pub fn get_syscall(registers: &Registers) -> (sysno: Result<u32, TraceError>)
    requires
        model::is_decodable(*registers),
    ensures
        sysno == model::syscall_of(*registers),
{
    if registers.orig_rax <= u32::MAX as u64 {
        Ok(registers.orig_rax as u32)
    } else {
        Err(TraceError::InvalidSyscall { register: registers.orig_rax })
    }
}

/// Tells whether the registers hold the number of a system call, or one that is too large for
/// any.
pub fn can_decode(registers: &Registers) -> (can: bool)
    ensures
        can == model::is_decodable(*registers),
{
    registers.orig_rax > u32::MAX as u64 || sysno::sysno_exists(registers.orig_rax as u32)
}

/// Tells whether a tracee is in a call to exit.
pub fn is_exit_syscall(registers: &Registers) -> (is: bool)
    ensures
        is == (registers.orig_rax == EXIT || registers.orig_rax == EXIT_GROUP),
{
    registers.orig_rax == EXIT as u64 || registers.orig_rax == EXIT_GROUP as u64
}

fn is_exec_sysno(id: u32) -> (is: bool)
    ensures
        is == sysno::is_exec(id),
{
    id == EXECVE || id == EXECVEAT
}

/// The call of `exec` that a tracee is in, if its registers are known and it is in one.
fn exec_syscall(registers: Option<Registers>) -> (found: Option<(u32, Registers)>)
    requires
        registers is Some ==> model::is_decodable(registers->0),
    ensures
        match found {
            Some((id, found)) => model::exec_registers(registers) && registers == Some(found)
                && model::syscall_of(found) == Ok::<u32, TraceError>(id),
            None => !model::exec_registers(registers),
        },
{
    match registers {
        Some(registers) => match get_syscall(&registers) {
            Ok(id) => if is_exec_sysno(id) {
                Some((id, registers))
            } else {
                None
            },
            Err(_) => None,
        },
        None => None,
    }
}

/// The outcome of a call, where a call to exit has none of its own.
fn outcome(id: u32, registers: &Registers) -> (code: RetCode)
    ensures
        code == model::outcome(id, *registers),
{
    if id == EXIT || id == EXIT_GROUP {
        RetCode::from_raw(0)
    } else {
        RetCode::from_raw(registers.rax)
    }
}

fn elapsed(timing: Option<(Timestamp, Timestamp)>) -> (nanos: u128)
    ensures
        nanos == model::elapsed(timing),
{
    match timing {
        Some((start, end)) => end.duration_since(start),
        None => 0,
    }
}

fn entry_of(request: LogRequest, id: u32, registers: Registers) -> (entry: LogEntry)
    ensures
        entry == model::entry_of(request, id, registers),
{
    LogEntry {
        pid: request.pid,
        sysno: id,
        code: outcome(id, &registers),
        registers: match request.entry_regs {
            Some(entry_regs) => entry_regs,
            None => registers,
        },
        args: request.args,
        timing: request.timing,
        ends_call: request.ends_call,
    }
}

impl Run {
    fn wait(&mut self) -> (action: Action)
        ensures
            final(self)@ == (RunState { phase: Phase::Waiting, ..old(self)@ }),
            action == Action::Wait,
    {
        self.phase = Phase::Waiting;
        Action::Wait
    }

    /// Asks for a tracee to be resumed up to its next system call.
    fn resume(&mut self, pid: i32, deliver: Option<i32>) -> (action: Action)
        ensures
            final(self)@ == (RunState { phase: Phase::Resuming { pid }, ..old(self)@ }),
            action == (Action::Resume { pid, deliver }),
    {
        self.phase = Phase::Resuming { pid };
        Action::Resume { pid, deliver }
    }

    fn fail(&mut self, error: TraceError) -> (action: Action)
        ensures
            final(self)@ == (RunState { phase: Phase::Finished, ..old(self)@ }),
            action == Action::Fail(error),
    {
        self.phase = Phase::Finished;
        Action::Fail(error)
    }

    /// Ends the run with the error that came of what was asked for.
    fn propagate(&mut self) -> (action: Action)
        ensures
            final(self)@ == (RunState { phase: Phase::Finished, ..old(self)@ }),
            action == Action::Propagate,
    {
        self.phase = Phase::Finished;
        Action::Propagate
    }

    /// Asks for the registers of a call that is to be logged.
    fn log(&mut self, request: LogRequest) -> (action: Action)
        ensures
            final(self)@ == (RunState { phase: Phase::LogRegisters { request }, ..old(self)@ }),
            action == (Action::GetRegisters { pid: request.pid }),
    {
        let pid: i32 = request.pid;
        self.phase = Phase::LogRegisters { request };
        Action::GetRegisters { pid }
    }

    /// Takes the arguments that were read at the start of a call of `exec`.
    fn take_pending(&mut self, pid: i32) -> (args: Option<SyscallArgs>)
        ensures
            args == model::pending(old(self)@, pid),
            final(self)@ == (RunState {
                pending_args: old(self)@.pending_args.remove(pid),
                ..old(self)@
            }),
    {
        broadcast use vstd::std_specs::hash::group_hash_axioms;

        match self.pending_args.remove(&pid) {
            Some(args) => args,
            None => None,
        }
    }

    fn set_pending(&mut self, pid: i32, args: Option<SyscallArgs>)
        ensures
            final(self)@ == (RunState {
                pending_args: old(self)@.pending_args.insert(pid, args),
                ..old(self)@
            }),
    {
        broadcast use vstd::std_specs::hash::group_hash_axioms;

        self.pending_args.insert(pid, args);
    }

    /// Tells whether arguments are kept of a call of `exec`.
    fn has_pending(&self, pid: i32) -> (has: bool)
        ensures
            has == (model::pending(self@, pid) is Some),
    {
        broadcast use vstd::std_specs::hash::group_hash_axioms;

        match self.pending_args.get(&pid) {
            Some(args) => args.is_some(),
            None => false,
        }
    }

    /// The registers at the start of the last call of a process, if they are known.
    fn entry_registers(&self, pid: i32) -> (registers: Option<Registers>)
        ensures
            registers == self@.entry_regs.get(pid),
    {
        broadcast use vstd::std_specs::hash::group_hash_axioms;

        match self.entry_regs.get(&pid) {
            Some(registers) => Some(*registers),
            None => None,
        }
    }

    fn set_entry_registers(&mut self, pid: i32, registers: Registers)
        ensures
            final(self)@ == (RunState {
                entry_regs: old(self)@.entry_regs.insert(pid, registers),
                ..old(self)@
            }),
    {
        broadcast use vstd::std_specs::hash::group_hash_axioms;

        self.entry_regs.insert(pid, registers);
    }

    /// Takes the registers at the start of the last call of a process.
    fn take_entry_registers(&mut self, pid: i32) -> (registers: Option<Registers>)
        ensures
            registers == old(self)@.entry_regs.get(pid),
            final(self)@ == (RunState {
                entry_regs: old(self)@.entry_regs.remove(pid),
                ..old(self)@
            }),
    {
        broadcast use vstd::std_specs::hash::group_hash_axioms;

        self.entry_regs.remove(&pid)
    }

    /// The start of the call that a process is in, where the process is followed.
    fn start_time(&self, pid: i32) -> (start: Option<Option<Timestamp>>)
        ensures
            start == self@.start_times.get(pid),
    {
        broadcast use vstd::std_specs::hash::group_hash_axioms;

        match self.start_times.get(&pid) {
            Some(start) => Some(*start),
            None => None,
        }
    }

    fn set_start_time(&mut self, pid: i32, start: Option<Timestamp>)
        ensures
            final(self)@ == (RunState {
                start_times: old(self)@.start_times.insert(pid, start),
                ..old(self)@
            }),
    {
        broadcast use vstd::std_specs::hash::group_hash_axioms;

        self.start_times.insert(pid, start);
    }

    /// Goes on after a call was logged.
    fn logged(&mut self, pid: i32, ends_call: bool) -> (action: Action)
        ensures
            final(self)@ == (RunState {
                phase: Phase::Resuming { pid },
                start_times: if ends_call {
                    old(self)@.start_times.insert(pid, None)
                } else {
                    old(self)@.start_times
                },
                ..old(self)@
            }),
            action == (Action::Resume { pid, deliver: None }),
    {
        if ends_call {
            self.set_start_time(pid, None);
        }
        self.resume(pid, None)
    }
}

impl<W> Tracer<W> {
    /// Starts a run: the first thing to do is to wait.
    pub fn run_tracer(&self) -> (run: Run)
        ensures
            run@ == model::initial_run(self@.pid),
            run@.is_valid(),
            self@.is_valid() ==> model::is_consistent(self@, run@),
    {
        broadcast use vstd::std_specs::hash::group_hash_axioms;

        let mut start_times: HashMap<i32, Option<Timestamp>> = HashMap::new();
        let mut pending_args: HashMap<i32, Option<SyscallArgs>> = HashMap::new();
        start_times.insert(self.pid(), None);
        pending_args.insert(self.pid(), None);
        Run {
            phase: Phase::Waiting,
            options_initialized: false,
            entry_regs: HashMap::new(),
            start_times,
            pending_args,
        }
    }

    /// Ends a run, with a summary where one is wanted.
    fn finish(&self, run: &mut Run) -> (action: Action)
        ensures
            model::finish(self@, old(run)@) == (Step { trace: self@, run: final(run)@, action }),
    {
        let report = self.report();
        if report.json || !(report.summary_only || report.summary) {
            run.phase = Phase::Finished;
            Action::Finish
        } else if report.summary_only {
            run.phase = Phase::Reporting;
            Action::Report { gap: false }
        } else {
            run.phase = Phase::SummaryGap;
            Action::Write(Line::Blank)
        }
    }

    /// Times a call that was counted, and records it where calls are recorded.
    fn record(&mut self, run: &mut Run, entry: LogEntry) -> (action: Action)
        requires
            old(self)@.is_valid(),
            sysno::is_sysno(entry.sysno),
            model::is_recordable(old(self)@, entry),
        ensures
            model::recorded(old(self)@, old(run)@, entry) == (Step {
                trace: final(self)@,
                run: final(run)@,
                action,
            }),
            final(self)@.is_valid(),
            final(run)@.is_valid(),
            final(self).has_setup_of(*old(self)),
    {
        let duration: u128 = elapsed(entry.timing);
        if !self.shows() {
            return run.logged(entry.pid, entry.ends_call);
        }
        if entry.timing.is_some() {
            self.add_time(entry.sysno, duration);
        }
        if self.report().summary_only {
            return run.logged(entry.pid, entry.ends_call);
        }
        match entry.args {
            Some(args) => {
                self.store(entry.pid, entry.sysno, args, entry.code, duration);
                run.logged(entry.pid, entry.ends_call)
            },
            None => {
                run.phase = Phase::LogArgs {
                    pid: entry.pid,
                    sysno: entry.sysno,
                    code: entry.code,
                    duration,
                    ends_call: entry.ends_call,
                };
                Action::ParseArgs {
                    pid: entry.pid,
                    sysno: entry.sysno,
                    registers: entry.registers,
                }
            },
        }
    }

    /// Counts a call and goes on to record it, unless it is an attempt to run a program that
    /// failed and is not shown.
    fn log_entry(&mut self, run: &mut Run, entry: LogEntry) -> (action: Action)
        requires
            old(self)@.is_valid(),
            sysno::is_sysno(entry.sysno),
            model::is_loggable(old(self)@, entry),
        ensures
            model::log_entry(old(self)@, old(run)@, entry) == (Step {
                trace: final(self)@,
                run: final(run)@,
                action,
            }),
            final(self)@.is_valid(),
            final(run)@.is_valid(),
            final(self).has_setup_of(*old(self)),
    {
        self.count(entry.sysno, entry.code);
        if self.collapse_exec_retries() && is_exec_sysno(entry.sysno) {
            match entry.code {
                RetCode::Failure(_) => {
                    self.add_retry(entry.pid);
                    return run.logged(entry.pid, entry.ends_call);
                },
                _ => {
                    if let Some(count) = self.retries(entry.pid) {
                        self.clear_retries(entry.pid);
                        if count > 0 {
                            let pid: i32 = entry.pid;
                            run.phase = Phase::LogOutput { entry };
                            return Action::Write(Line::Collapsed { pid, count });
                        }
                    }
                },
            }
        }
        self.record(run, entry)
    }

    /// Logs a call once its registers are known.
    fn log_standard_syscall(
        &mut self,
        run: &mut Run,
        request: LogRequest,
        registers: Option<Registers>,
    ) -> (action: Action)
        requires
            old(self)@.is_valid(),
            registers is Some ==> model::is_decodable(registers->0),
            registers is Some && model::syscall_of(registers->0) is Ok ==> model::is_loggable(
                old(self)@,
                model::entry_of(request, model::syscall_of(registers->0)->Ok_0, registers->0),
            ),
        ensures
            model::on_log_registers(old(self)@, old(run)@, request, registers) == (Step {
                trace: final(self)@,
                run: final(run)@,
                action,
            }),
            final(self)@.is_valid(),
            final(run)@.is_valid(),
            final(self).has_setup_of(*old(self)),
    {
        let pid: i32 = request.pid;
        let ends_call: bool = request.ends_call;
        match registers {
            None => {
                run.phase = Phase::Warning { pid, ends_call };
                Action::Warn(TraceError::Registers { pid })
            },
            Some(registers) => match get_syscall(&registers) {
                Err(error) => {
                    run.phase = Phase::Warning { pid, ends_call };
                    Action::Warn(error)
                },
                Ok(id) => {
                    let entry = entry_of(request, id, registers);
                    self.log_entry(run, entry)
                },
            },
        }
    }

    /// Handles a tracee that was stopped by a signal.
    fn on_stopped(&mut self, run: &mut Run, pid: i32, signal: i32) -> (action: Action)
        requires
            old(self)@.is_valid(),
        ensures
            model::on_stopped(old(self)@, old(run)@, pid, signal) == (Step {
                trace: final(self)@,
                run: final(run)@,
                action,
            }),
            final(self)@.is_valid(),
            final(run)@.is_valid(),
            final(self).has_setup_of(*old(self)),
    {
        if signal == SIGTRAP {
            let entry_regs = run.take_entry_registers(pid);
            let args = run.take_pending(pid);
            match entry_regs {
                Some(entry_regs) => run.log(
                    LogRequest {
                        pid,
                        entry_regs: Some(entry_regs),
                        args,
                        timing: None,
                        ends_call: false,
                    },
                ),
                None => {
                    run.phase = Phase::TrapRegisters { pid, args };
                    Action::GetRegisters { pid }
                },
            }
        } else if signal == SIGSTOP {
            if self.follow_forks() {
                self.follow(pid);
                run.set_start_time(pid, None);
                if !self.report().summary_only {
                    run.phase = Phase::Attaching { pid };
                    return Action::Write(Line::Attaching { pid });
                }
            }
            run.resume(pid, None)
        } else if signal == SIGCHLD {
            run.resume(pid, Some(signal))
        } else {
            run.phase = Phase::Continuing;
            Action::Continue { pid, signal }
        }
    }

    /// Handles a tracee that was stopped by a `ptrace` event.
    fn on_ptrace_event(&mut self, run: &mut Run, pid: i32, code: i32) -> (action: Action)
        requires
            old(self)@.is_valid(),
            code == PTRACE_EVENT_EXEC && model::pending(old(run)@, pid) is Some ==> old(
                self,
            )@.tables.contains_key(pid),
        ensures
            model::on_ptrace_event(old(self)@, old(run)@, pid, code) == (Step {
                trace: final(self)@,
                run: final(run)@,
                action,
            }),
            final(self)@.is_valid(),
            final(run)@.is_valid(),
            final(self).has_setup_of(*old(self)),
    {
        if code == PTRACE_EVENT_EXEC {
            match run.take_pending(pid) {
                Some(args) => {
                    self.log_exec_event(pid, args);
                    run.resume(pid, None)
                },
                None => {
                    run.phase = Phase::ExecRegisters { pid };
                    Action::GetRegisters { pid }
                },
            }
        } else if code == PTRACE_EVENT_EXIT {
            run.phase = Phase::ExitRegisters { pid };
            Action::GetRegisters { pid }
        } else {
            run.resume(pid, None)
        }
    }

    /// Handles a change of state of a traced process.
    fn on_status(&mut self, run: &mut Run, status: WaitStatus) -> (action: Action)
        requires
            old(self)@.is_valid(),
            model::is_status_valid(old(self)@, old(run)@, status),
        ensures
            model::on_status(old(self)@, old(run)@, status) == (Step {
                trace: final(self)@,
                run: final(run)@,
                action,
            }),
            final(self)@.is_valid(),
            final(run)@.is_valid(),
            final(self).has_setup_of(*old(self)),
    {
        match status {
            WaitStatus::Stopped { pid, signal } => self.on_stopped(run, pid, signal),
            WaitStatus::Exited { pid, code: _ } => {
                if pid == self.pid() {
                    self.finish(run)
                } else {
                    run.wait()
                }
            },
            WaitStatus::PtraceEvent { pid, signal: _, code } => self.on_ptrace_event(
                run,
                pid,
                code,
            ),
            WaitStatus::PtraceSyscall { pid } => {
                run.phase = Phase::EventMessage { pid };
                Action::GetEvent { pid }
            },
            WaitStatus::Signaled { pid, signal, core_dumped } => {
                run.phase = Phase::Terminating;
                Action::Write(Line::Terminated { pid, signal, core_dumped })
            },
            WaitStatus::Continued { pid: _ } => run.wait(),
            WaitStatus::StillAlive => run.wait(),
        }
    }

    /// Handles a tracee that is at the start or at the end of a system call.
    fn on_message(&mut self, run: &mut Run, pid: i32, message: i64, now: Timestamp) -> (action:
        Action)
        requires
            old(self)@.is_valid(),
        ensures
            model::on_message(old(self)@, old(run)@, pid, message, now) == (Step {
                trace: final(self)@,
                run: final(run)@,
                action,
            }),
            final(self)@.is_valid(),
            final(run)@.is_valid(),
            final(self).has_setup_of(*old(self)),
    {
        let event: u8 = #[verifier::truncate]
        (message as u8);
        match run.start_time(pid) {
            None => run.fail(TraceError::NoStartTime { pid }),
            Some(start) => {
                if event == PTRACE_SYSCALL_INFO_EXIT {
                    let entry_regs = run.entry_registers(pid);
                    let args = run.take_pending(pid);
                    let timing = match start {
                        Some(start) => Some((start, now)),
                        None => None,
                    };
                    run.log(LogRequest { pid, entry_regs, args, timing, ends_call: true })
                } else {
                    run.set_start_time(pid, Some(now));
                    run.phase = Phase::EntryRegisters { pid };
                    Action::GetRegisters { pid }
                }
            },
        }
    }

    /// Handles the registers at the start of a system call.
    fn on_entry_registers(
        &mut self,
        run: &mut Run,
        pid: i32,
        registers: Option<Registers>,
    ) -> (action: Action)
        requires
            old(self)@.is_valid(),
            registers is Some ==> model::is_decodable(registers->0),
        ensures
            model::on_entry_registers(old(self)@, old(run)@, pid, registers) == (Step {
                trace: final(self)@,
                run: final(run)@,
                action,
            }),
            final(self)@.is_valid(),
            final(run)@.is_valid(),
            final(self).has_setup_of(*old(self)),
    {
        match registers {
            None => run.fail(TraceError::Registers { pid }),
            Some(registers) => {
                run.set_entry_registers(pid, registers);
                match get_syscall(&registers) {
                    Err(_) => run.resume(pid, None),
                    Ok(id) => {
                        if is_exec_sysno(id) {
                            run.phase = Phase::EntryArgs { pid };
                            Action::ParseArgs { pid, sysno: id, registers }
                        } else {
                            run.set_pending(pid, None);
                            run.resume(pid, None)
                        }
                    },
                }
            },
        }
    }

    /// Handles the registers of a tracee that called `exec`.
    fn on_trap_registers(
        &mut self,
        run: &mut Run,
        pid: i32,
        args: Option<SyscallArgs>,
        registers: Option<Registers>,
    ) -> (action: Action)
        requires
            old(self)@.is_valid(),
            registers is Some ==> model::is_decodable(registers->0),
        ensures
            model::on_trap_registers(old(self)@, old(run)@, pid, args, registers) == (Step {
                trace: final(self)@,
                run: final(run)@,
                action,
            }),
            final(self)@.is_valid(),
            final(run)@.is_valid(),
            final(self).has_setup_of(*old(self)),
    {
        match exec_syscall(registers) {
            Some((id, registers)) => {
                run.phase = Phase::TrapArgs { pid, registers };
                Action::ParseArgs { pid, sysno: id, registers }
            },
            None => run.log(
                LogRequest { pid, entry_regs: None, args, timing: None, ends_call: false },
            ),
        }
    }

    /// Handles the registers of a tracee whose `exec` succeeded.
    fn on_exec_registers(&mut self, run: &mut Run, pid: i32, registers: Option<Registers>) -> (action:
        Action)
        requires
            old(self)@.is_valid(),
            registers is Some ==> model::is_decodable(registers->0),
        ensures
            model::on_exec_registers(old(self)@, old(run)@, pid, registers) == (Step {
                trace: final(self)@,
                run: final(run)@,
                action,
            }),
            final(self)@.is_valid(),
            final(run)@.is_valid(),
            final(self).has_setup_of(*old(self)),
    {
        match exec_syscall(registers) {
            Some((id, registers)) => {
                run.phase = Phase::ExecArgs { pid };
                Action::ParseArgs { pid, sysno: id, registers }
            },
            None => run.resume(pid, None),
        }
    }

    /// Handles the registers of a tracee that is about to exit.
    fn on_exit_registers(&mut self, run: &mut Run, pid: i32, registers: Option<Registers>) -> (action:
        Action)
        requires
            old(self)@.is_valid(),
        ensures
            model::on_exit_registers(old(self)@, old(run)@, pid, registers) == (Step {
                trace: final(self)@,
                run: final(run)@,
                action,
            }),
            final(self)@.is_valid(),
            final(run)@.is_valid(),
            final(self).has_setup_of(*old(self)),
    {
        match registers {
            None => run.fail(TraceError::Registers { pid }),
            Some(registers) => {
                if is_exit_syscall(&registers) {
                    let args = run.take_pending(pid);
                    run.log(
                        LogRequest { pid, entry_regs: None, args, timing: None, ends_call: false },
                    )
                } else {
                    run.resume(pid, None)
                }
            },
        }
    }

    /// Goes on after what was asked for is done.
    fn on_done(&mut self, run: &mut Run, phase: Phase) -> (action: Action)
        requires
            old(self)@.is_valid(),
            (RunState { phase, ..old(run)@ }).is_valid(),
            model::is_acceptable(old(self)@, (RunState { phase, ..old(run)@ }), Event::Done),
        ensures
            model::on_done(old(self)@, (RunState { phase, ..old(run)@ })) == (Step {
                trace: final(self)@,
                run: final(run)@,
                action,
            }),
            final(self)@.is_valid(),
            final(run)@.is_valid(),
            final(self).has_setup_of(*old(self)),
    {
        match phase {
            Phase::SettingOptions { status } => {
                run.options_initialized = true;
                self.on_status(run, status)
            },
            Phase::LogOutput { entry } => self.record(run, entry),
            Phase::Warning { pid, ends_call } => run.logged(pid, ends_call),
            Phase::Attaching { pid } => run.resume(pid, None),
            Phase::Terminating => self.finish(run),
            Phase::SummaryGap => {
                run.phase = Phase::Reporting;
                Action::Report { gap: !self.report().summary_only }
            },
            Phase::Reporting => {
                run.phase = Phase::Finished;
                Action::Finish
            },
            _ => run.wait(),
        }
    }

    /// Goes on with the registers that were asked for.
    fn on_registers(&mut self, run: &mut Run, phase: Phase, registers: Option<Registers>) -> (action:
        Action)
        requires
            old(self)@.is_valid(),
            (RunState { phase, ..old(run)@ }).is_valid(),
            model::is_acceptable(
                old(self)@,
                (RunState { phase, ..old(run)@ }),
                Event::Registers(registers),
            ),
        ensures
            model::on_registers(old(self)@, (RunState { phase, ..old(run)@ }), registers) == (Step {
                trace: final(self)@,
                run: final(run)@,
                action,
            }),
            final(self)@.is_valid(),
            final(run)@.is_valid(),
            final(self).has_setup_of(*old(self)),
    {
        match phase {
            Phase::TrapRegisters { pid, args } => self.on_trap_registers(run, pid, args, registers),
            Phase::LogRegisters { request } => self.log_standard_syscall(run, request, registers),
            Phase::ExecRegisters { pid } => self.on_exec_registers(run, pid, registers),
            Phase::ExitRegisters { pid } => self.on_exit_registers(run, pid, registers),
            Phase::EntryRegisters { pid } => self.on_entry_registers(run, pid, registers),
            _ => run.propagate(),
        }
    }

    /// Goes on with the arguments that were asked for.
    fn on_args(&mut self, run: &mut Run, phase: Phase, args: SyscallArgs) -> (action: Action)
        requires
            old(self)@.is_valid(),
            (RunState { phase, ..old(run)@ }).is_valid(),
            model::is_acceptable(
                old(self)@,
                (RunState { phase, ..old(run)@ }),
                Event::Args(args),
            ),
        ensures
            model::on_args(old(self)@, (RunState { phase, ..old(run)@ }), args) == (Step {
                trace: final(self)@,
                run: final(run)@,
                action,
            }),
            final(self)@.is_valid(),
            final(run)@.is_valid(),
            final(self).has_setup_of(*old(self)),
    {
        match phase {
            Phase::TrapArgs { pid, registers } => run.log(
                LogRequest {
                    pid,
                    entry_regs: Some(registers),
                    args: Some(args),
                    timing: None,
                    ends_call: false,
                },
            ),
            Phase::LogArgs { pid, sysno, code, duration, ends_call } => {
                self.store(pid, sysno, args, code, duration);
                run.logged(pid, ends_call)
            },
            Phase::ExecArgs { pid } => {
                self.log_exec_event(pid, args);
                run.resume(pid, None)
            },
            Phase::EntryArgs { pid } => {
                run.set_pending(pid, Some(args));
                run.resume(pid, None)
            },
            _ => run.propagate(),
        }
    }

    /// Takes the answer to what was asked for last, and says what is to be done next.
    pub fn step(&mut self, run: &mut Run, event: Event) -> (action: Action)
        requires
            old(self)@.is_valid(),
            old(run)@.is_valid(),
            model::is_consistent(old(self)@, old(run)@),
            model::is_acceptable(old(self)@, old(run)@, event),
        ensures
            model::next(old(self)@, old(run)@, event) == (Step {
                trace: final(self)@,
                run: final(run)@,
                action,
            }),
            final(self)@.is_valid(),
            final(run)@.is_valid(),
            model::is_consistent(final(self)@, final(run)@),
            final(self).has_setup_of(*old(self)),
    {
        proof {
            model::lemma_next_is_consistent(self@, run@, event);
        }
        let mut phase = Phase::Finished;
        std::mem::swap(&mut phase, &mut run.phase);
        assert((RunState { phase, ..run@ }) == old(run)@);
        match event {
            Event::Status(status) => {
                if run.options_initialized {
                    self.on_status(run, status)
                } else {
                    run.phase = Phase::SettingOptions { status };
                    Action::InitOptions { pid: self.pid(), follow_forks: self.follow_forks() }
                }
            },
            Event::Done => self.on_done(run, phase),
            Event::Failed => match phase {
                Phase::Resuming { pid } => run.fail(TraceError::Resume { pid }),
                _ => run.propagate(),
            },
            Event::Registers(registers) => self.on_registers(run, phase, registers),
            Event::Args(args) => self.on_args(run, phase, args),
            Event::Message { message, now } => match phase {
                Phase::EventMessage { pid } => self.on_message(run, pid, message, now),
                _ => run.propagate(),
            },
        }
    }

    /// Tells whether a call that was counted can be timed and recorded.
    fn can_record(&self, entry: &LogEntry) -> (can: bool)
        requires
            self@.is_valid(),
            sysno::is_sysno(entry.sysno),
        ensures
            can == model::is_recordable(self@, *entry),
    {
        if entry.timing.is_some() {
            let spent: u128 = self.stats_of(entry.sysno).time;
            let duration: u128 = elapsed(entry.timing);
            if duration > MAX_DURATION || spent > MAX_DURATION - duration {
                return false;
            }
        }
        if self.report().summary_only {
            return true;
        }
        match &entry.args {
            Some(args) => self.can_store(entry.pid, entry.sysno, args, entry.code),
            None => self.has_table(entry.pid),
        }
    }

    /// Tells whether a call can be logged that has these registers.
    fn can_log(&self, request: &LogRequest, id: u32, registers: &Registers) -> (can: bool)
        requires
            self@.is_valid(),
            sysno::is_sysno(id),
        ensures
            can == model::is_loggable(self@, model::entry_of(*request, id, *registers)),
    {
        let code = outcome(id, registers);
        let stats = self.stats_of(id);
        if id != EXIT && id != EXIT_GROUP {
            let counted: u64 = match code {
                RetCode::Failure(_) => stats.fail,
                _ => stats.pass,
            };
            if counted == u64::MAX {
                return false;
            }
        }
        let count: Option<usize> = self.retries(request.pid);
        if self.collapse_exec_retries() && is_exec_sysno(id) {
            match code {
                RetCode::Failure(_) => {
                    return match count {
                        Some(count) => count < usize::MAX,
                        None => true,
                    };
                },
                _ => {
                    if let Some(count) = count {
                        if count > 0 {
                            return true;
                        }
                    }
                },
            }
        }
        if request.timing.is_some() {
            let duration: u128 = elapsed(request.timing);
            if duration > MAX_DURATION || stats.time > MAX_DURATION - duration {
                return false;
            }
        }
        if self.report().summary_only {
            return true;
        }
        match &request.args {
            Some(args) => self.can_store(request.pid, id, args, code),
            None => self.has_table(request.pid),
        }
    }

    /// Tells whether a change of state can be handled.
    fn can_handle(&self, run: &Run, status: &WaitStatus) -> (can: bool)
        ensures
            can == model::is_status_valid(self@, run@, *status),
    {
        match status {
            WaitStatus::PtraceEvent { pid, signal: _, code } => {
                *code != PTRACE_EVENT_EXEC || !run.has_pending(*pid) || self.has_table(*pid)
            },
            WaitStatus::Signaled { pid: _, signal, core_dumped: _ } => {
                1 <= *signal && *signal <= 31
            },
            _ => true,
        }
    }

    /// Tells whether the registers in an event can be handled.
    fn can_use_registers(&self, run: &Run, registers: &Registers) -> (can: bool)
        requires
            self@.is_valid(),
        ensures
            can == model::are_registers_valid(self@, run@.phase, *registers),
    {
        match &run.phase {
            Phase::ExitRegisters { pid: _ } => true,
            Phase::LogRegisters { request } => {
                can_decode(registers) && match get_syscall(registers) {
                    Ok(id) => self.can_log(request, id, registers),
                    Err(_) => true,
                }
            },
            _ => can_decode(registers),
        }
    }

    /// Tells whether a step can be made with an event: it answers what was asked for last, and
    /// what it brings is within the limits of what a tracer can record.
    pub fn accepts(&self, run: &Run, event: &Event) -> (can: bool)
        requires
            self@.is_valid(),
            run@.is_valid(),
        ensures
            can == model::is_acceptable(self@, run@, *event),
    {
        match event {
            Event::Status(status) => match run.phase {
                Phase::Waiting => !run.options_initialized || self.can_handle(run, status),
                _ => false,
            },
            Event::Done => match &run.phase {
                Phase::SettingOptions { status } => self.can_handle(run, status),
                Phase::LogOutput { entry } => self.can_record(entry),
                Phase::Warning { pid: _, ends_call: _ } => true,
                Phase::Attaching { pid: _ } => true,
                Phase::Resuming { pid: _ } => true,
                Phase::Continuing => true,
                Phase::Terminating => true,
                Phase::SummaryGap => true,
                Phase::Reporting => true,
                _ => false,
            },
            Event::Failed => match &run.phase {
                Phase::Waiting => true,
                Phase::SettingOptions { status: _ } => true,
                Phase::LogOutput { entry: _ } => true,
                Phase::Attaching { pid: _ } => true,
                Phase::Resuming { pid: _ } => true,
                Phase::Continuing => true,
                Phase::Terminating => true,
                Phase::SummaryGap => true,
                Phase::Reporting => true,
                Phase::EventMessage { pid: _ } => true,
                _ => false,
            },
            Event::Registers(registers) => {
                (match &run.phase {
                    Phase::TrapRegisters { pid: _, args: _ } => true,
                    Phase::LogRegisters { request: _ } => true,
                    Phase::ExecRegisters { pid: _ } => true,
                    Phase::ExitRegisters { pid: _ } => true,
                    Phase::EntryRegisters { pid: _ } => true,
                    _ => false,
                }) && match registers {
                    Some(registers) => self.can_use_registers(run, registers),
                    None => true,
                }
            },
            Event::Args(args) => match &run.phase {
                Phase::TrapArgs { pid: _, registers: _ } => true,
                Phase::LogArgs { pid, sysno, code, duration: _, ends_call: _ } => self.can_store(
                    *pid,
                    *sysno,
                    args,
                    *code,
                ),
                Phase::ExecArgs { pid } => self.has_table(*pid),
                Phase::EntryArgs { pid: _ } => true,
                _ => false,
            },
            Event::Message { message: _, now: _ } => match run.phase {
                Phase::EventMessage { pid: _ } => true,
                _ => false,
            },
        }
    }
}

} // verus!
