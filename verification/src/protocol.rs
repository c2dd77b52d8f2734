//! What the tracer asks of the operating system, and what it is told in return.

use nix::sys::signal::Signal;
use vstd::prelude::*;
use vstd::string::StringExecFns;

use crate::syscall_info::{Registers, RetCode, SyscallArgs};
use crate::text;

verus! {

/// The stop of a tracee that calls `exec`.
pub const SIGTRAP: i32 = 5;

/// Sent to a process when one of its children ends or stops.
pub const SIGCHLD: i32 = 17;

/// The first stop of a child of a tracee.
pub const SIGSTOP: i32 = 19;

/// The `ptrace` event of a successful `exec`.
pub const PTRACE_EVENT_EXEC: i32 = 4;

/// The `ptrace` event of a process that is about to exit.
pub const PTRACE_EVENT_EXIT: i32 = 6;

/// The event message of a stop at the end of a system call.
pub const PTRACE_SYSCALL_INFO_EXIT: u8 = 2;

/// A point in time, counted from the epoch.
#[derive(Clone, Copy, Debug, PartialEq)]
pub struct Timestamp {
    pub secs: i64,
    pub nanos: u32,
}

impl Timestamp {
    /// Nanoseconds since the epoch.
    pub open spec fn at(self) -> int {
        self.secs * 1_000_000_000 + self.nanos
    }

    /// The nanoseconds from `start` to this point, or none where the clock went back.
    pub open spec fn nanos_since(self, start: Timestamp) -> u128 {
        if self.at() >= start.at() {
            (self.at() - start.at()) as u128
        } else {
            0
        }
    }

    /// Computes `nanos_since`.
    pub fn duration_since(self, start: Timestamp) -> (nanos: u128)
        ensures
            nanos == self.nanos_since(start),
    {
        let end: i128 = self.secs as i128 * 1_000_000_000 + self.nanos as i128;
        let begin: i128 = start.secs as i128 * 1_000_000_000 + start.nanos as i128;
        if end >= begin {
            (end - begin) as u128
        } else {
            0
        }
    }
}

/// A change of state of a traced process.
#[derive(Clone, Copy, Debug, PartialEq)]
pub enum WaitStatus {
    /// Stopped by a signal.
    Stopped { pid: i32, signal: i32 },
    /// Exited with a code.
    Exited { pid: i32, code: i32 },
    /// Stopped by a `ptrace` event.
    PtraceEvent { pid: i32, signal: i32, code: i32 },
    /// Stopped at the start or the end of a system call.
    PtraceSyscall { pid: i32 },
    /// Killed by a signal.
    Signaled { pid: i32, signal: i32, core_dumped: bool },
    /// Resumed by `SIGCONT`.
    Continued { pid: i32 },
    /// Nothing to report.
    StillAlive,
}

/// Why a run ends early, or why a stop is passed over.
#[derive(Clone, Copy, Debug, PartialEq)]
pub enum TraceError {
    /// A tracee could not be resumed.
    Resume { pid: i32 },
    /// The registers of a tracee could not be read.
    Registers { pid: i32 },
    /// The register that holds the number of a system call holds none.
    InvalidSyscall { register: u64 },
    /// A system call of a process that is not being followed.
    NoStartTime { pid: i32 },
}

impl TraceError {
    /// The error, as it is shown.
    pub open spec fn message_view(self) -> Seq<char> {
        match self {
            TraceError::Resume { pid } => "Unable to issue a PTRACE_SYSCALL request in tracee "@
                + text::decimal(pid as int),
            TraceError::Registers { pid } => "Unable to get registers from tracee "@
                + text::decimal(pid as int),
            TraceError::InvalidSyscall { register } => "Invalid syscall number "@ + text::decimal(
                register as int,
            ),
            TraceError::NoStartTime { pid } => "Unable to get start time for tracee "@
                + text::decimal(pid as int),
        }
    }

    /// Says what went wrong.
    pub fn message(&self) -> (message: String)
        ensures
            message@ == self.message_view(),
    {
        match self {
            TraceError::Resume { pid } => {
                let mut message = "Unable to issue a PTRACE_SYSCALL request in tracee ".to_owned();
                text::append_decimal(&mut message, *pid);
                message
            },
            TraceError::Registers { pid } => {
                let mut message = "Unable to get registers from tracee ".to_owned();
                text::append_decimal(&mut message, *pid);
                message
            },
            TraceError::InvalidSyscall { register } => {
                let mut message = "Invalid syscall number ".to_owned();
                text::append_digits(&mut message, *register as u128);
                message
            },
            TraceError::NoStartTime { pid } => {
                let mut message = "Unable to get start time for tracee ".to_owned();
                text::append_decimal(&mut message, *pid);
                message
            },
        }
    }
}

/// The numbers that name a signal.
pub open spec fn is_signal(signal: i32) -> bool {
    1 <= signal <= 31
}

/// The name of a signal, as `nix::sys::signal::Signal::as_str` gives it.
pub uninterp spec fn signal_name(signal: i32) -> Seq<char>;

/// `nix::sys::signal::Signal::try_from` and `as_str`: the name of a signal, if the number names
/// one.
#[verifier::external_body]
fn signal_text(signal: i32) -> (name: Option<&'static str>)
    ensures
        name is Some <==> is_signal(signal),
        name matches Some(name) ==> name@ == signal_name(signal),
{
    match Signal::try_from(signal) {
        Ok(signal) => Some(signal.as_str()),
        Err(_) => None,
    }
}

/// The line on a tracee that was killed by the signal of a name.
pub open spec fn terminated_view(pid: i32, name: Seq<char>, core_dumped: bool) -> Seq<char> {
    "Child "@ + text::decimal(pid as int) + " terminated by signal "@ + name + " "@ + (
    if core_dumped {
        "(core dumped)"@
    } else {
        Seq::empty()
    })
}

/// Writes out the line on a tracee that was killed by the signal of a name.
pub fn terminated_text(pid: i32, name: &str, core_dumped: bool) -> (line: String)
    ensures
        line@ == terminated_view(pid, name@, core_dumped),
{
    let mut line = "Child ".to_owned();
    text::append_decimal(&mut line, pid);
    line.append(" terminated by signal ");
    line.append(name);
    line.append(" ");
    if core_dumped {
        line.append("(core dumped)");
    }
    assert(line@ =~= terminated_view(pid, name@, core_dumped));
    line
}

/// A line of output.
#[derive(Clone, Copy, Debug, PartialEq)]
pub enum Line {
    /// A child of a tracee is followed from now on.
    Attaching { pid: i32 },
    /// Attempts to run a program that failed and were not shown.
    Collapsed { pid: i32, count: usize },
    /// A tracee was killed.
    Terminated { pid: i32, signal: i32, core_dumped: bool },
    /// An empty line.
    Blank,
}

impl Line {
    /// The signal in the line, if there is one, has a name.
    pub open spec fn is_valid(self) -> bool {
        self matches Line::Terminated { signal, .. } ==> is_signal(signal)
    }

    /// The line, as it is shown.
    pub open spec fn text_view(self) -> Seq<char> {
        match self {
            Line::Attaching { pid } => "Attaching to child "@ + text::decimal(pid as int),
            Line::Collapsed { pid, count } => "["@ + text::decimal(pid as int)
                + "] execve: collapsed "@ + text::decimal(count as int) + " failed attempts"@,
            Line::Terminated { pid, signal, core_dumped } => terminated_view(
                pid,
                signal_name(signal),
                core_dumped,
            ),
            Line::Blank => Seq::empty(),
        }
    }

    /// Writes the line out, without an end of line.
    pub fn text(&self) -> (line: String)
        requires
            self.is_valid(),
        ensures
            line@ == self.text_view(),
    {
        match self {
            Line::Attaching { pid } => {
                let mut line = "Attaching to child ".to_owned();
                text::append_decimal(&mut line, *pid);
                line
            },
            Line::Collapsed { pid, count } => {
                let mut line = "[".to_owned();
                text::append_decimal(&mut line, *pid);
                line.append("] execve: collapsed ");
                text::append_digits(&mut line, *count as u128);
                line.append(" failed attempts");
                line
            },
            Line::Terminated { pid, signal, core_dumped } => match signal_text(*signal) {
                Some(name) => terminated_text(*pid, name, *core_dumped),
                None => String::new(),
            },
            Line::Blank => String::new(),
        }
    }
}

/// What the tracer is told: the outcome of what it asked for last.
pub enum Event {
    /// A traced process changed its state.
    Status(WaitStatus),
    /// What was asked for is done.
    Done,
    /// What was asked for failed.
    Failed,
    /// The registers, if they could be read.
    Registers(Option<Registers>),
    /// The arguments of a system call.
    Args(SyscallArgs),
    /// The message of a `ptrace` event, and the time when it was read.
    Message { message: i64, now: Timestamp },
}

/// What the tracer asks for.
#[derive(Clone, Copy, Debug, PartialEq)]
pub enum Action {
    /// Wait for a change of state of any tracee.
    Wait,
    /// Set the `ptrace` options of the tracee, those that follow its children among them or
    /// not.
    InitOptions { pid: i32, follow_forks: bool },
    /// Read the registers of a tracee.
    GetRegisters { pid: i32 },
    /// Read the arguments of a system call out of the memory of a tracee.
    ParseArgs { pid: i32, sysno: u32, registers: Registers },
    /// Read the message of a `ptrace` event, and the time.
    GetEvent { pid: i32 },
    /// Resume a tracee up to its next system call, with a signal or without.
    Resume { pid: i32, deliver: Option<i32> },
    /// Resume a tracee and hand it a signal.
    Continue { pid: i32, signal: i32 },
    /// Write a line to the output.
    Write(Line),
    /// Show an error and go on.
    Warn(TraceError),
    /// Write the summary to the output, after an empty line or not.
    Report { gap: bool },
    /// End the run.
    Finish,
    /// End the run with an error.
    Fail(TraceError),
    /// End the run with the error that came of what was asked for last.
    Propagate,
}

/// A system call that is to be logged.
pub struct LogRequest {
    pub pid: i32,
    /// The registers at the start of the call.
    pub entry_regs: Option<Registers>,
    /// The arguments, where they were read at the start of the call.
    pub args: Option<SyscallArgs>,
    /// When the call started and ended.
    pub timing: Option<(Timestamp, Timestamp)>,
    /// The call is at its end, and its start time is to be forgotten.
    pub ends_call: bool,
}

/// A system call that was told apart and counted, and is to be recorded.
pub struct LogEntry {
    pub pid: i32,
    pub sysno: u32,
    pub code: RetCode,
    pub registers: Registers,
    pub args: Option<SyscallArgs>,
    pub timing: Option<(Timestamp, Timestamp)>,
    pub ends_call: bool,
}

/// Where a run stands between two steps.
pub enum Phase {
    /// It waits for a change of state.
    Waiting,
    /// The options are being set, before the first status is handled.
    SettingOptions { status: WaitStatus },
    /// A tracee called `exec`, and nothing is known of the call.
    TrapRegisters { pid: i32, args: Option<SyscallArgs> },
    TrapArgs { pid: i32, registers: Registers },
    /// A call is being logged.
    LogRegisters { request: LogRequest },
    LogOutput { entry: LogEntry },
    LogArgs { pid: i32, sysno: u32, code: RetCode, duration: u128, ends_call: bool },
    Warning { pid: i32, ends_call: bool },
    /// A call of `exec` succeeded, and its arguments are not known.
    ExecRegisters { pid: i32 },
    ExecArgs { pid: i32 },
    /// A tracee is about to exit.
    ExitRegisters { pid: i32 },
    /// A tracee stopped at a system call.
    EventMessage { pid: i32 },
    EntryRegisters { pid: i32 },
    EntryArgs { pid: i32 },
    /// A line is being written on a new child.
    Attaching { pid: i32 },
    /// A tracee is being resumed.
    Resuming { pid: i32 },
    Continuing,
    /// A line is being written on a tracee that was killed.
    Terminating,
    /// The summary is being written.
    SummaryGap,
    Reporting,
    /// The run is over.
    Finished,
}

/// A duration leads from the start to the end: added to the start it gives the end, second for
/// second and nanosecond for nanosecond; and it is none where the end is before the start.
pub proof fn duration_leads_from_start_to_end(start: Timestamp, end: Timestamp)
    ensures
        start.secs * 1_000_000_000 + start.nanos <= end.secs * 1_000_000_000 + end.nanos
            ==> start.secs * 1_000_000_000 + start.nanos + end.nanos_since(start) == end.secs
            * 1_000_000_000 + end.nanos,
        start.secs * 1_000_000_000 + start.nanos > end.secs * 1_000_000_000 + end.nanos
            ==> end.nanos_since(start) == 0,
{
}

/// For times in order, the durations from one to the next add up.
pub proof fn durations_add_up(first: Timestamp, second: Timestamp, third: Timestamp)
    requires
        first.secs * 1_000_000_000 + first.nanos <= second.secs * 1_000_000_000 + second.nanos,
        second.secs * 1_000_000_000 + second.nanos <= third.secs * 1_000_000_000 + third.nanos,
    ensures
        second.nanos_since(first) + third.nanos_since(second) == third.nanos_since(first),
{
    duration_leads_from_start_to_end(first, second);
    duration_leads_from_start_to_end(second, third);
    duration_leads_from_start_to_end(first, third);
}

/// An error begins with what could not be done, and ends with the process or the number that it
/// is about.
pub proof fn errors_name_what_they_are_about(pid: i32, register: u64)
    ensures
        (TraceError::Resume { pid }).message_view()
            == "Unable to issue a PTRACE_SYSCALL request in tracee "@ + text::decimal(pid as int),
        (TraceError::Registers { pid }).message_view() == "Unable to get registers from tracee "@
            + text::decimal(pid as int),
        (TraceError::InvalidSyscall { register }).message_view() == "Invalid syscall number "@
            + text::decimal(register as int),
        (TraceError::NoStartTime { pid }).message_view() == "Unable to get start time for tracee "@
            + text::decimal(pid as int),
{
}

/// A line names the process that it is about, and the number of attempts or the signal; only a
/// signal that has no name cannot be written.
pub proof fn lines_name_what_they_are_about(pid: i32, count: usize, signal: i32)
    ensures
        (Line::Attaching { pid }).text_view() == "Attaching to child "@ + text::decimal(pid as int),
        (Line::Collapsed { pid, count }).text_view() == "["@ + text::decimal(pid as int)
            + "] execve: collapsed "@ + text::decimal(count as int) + " failed attempts"@,
        (Line::Terminated { pid, signal, core_dumped: true }).text_view() == "Child "@
            + text::decimal(pid as int) + " terminated by signal "@ + signal_name(signal) + " "@
            + "(core dumped)"@,
        (Line::Terminated { pid, signal, core_dumped: false }).text_view() == "Child "@
            + text::decimal(pid as int) + " terminated by signal "@ + signal_name(signal) + " "@,
        Line::Blank.text_view().len() == 0,
        (Line::Attaching { pid }).is_valid(),
        (Line::Collapsed { pid, count }).is_valid(),
        Line::Blank.is_valid(),
        (Line::Terminated { pid, signal, core_dumped: true }).is_valid() <==> 1 <= signal <= 31,
        (Line::Terminated { pid, signal, core_dumped: false }).is_valid() <==> 1 <= signal <= 31,
{
    assert((Line::Terminated { pid, signal, core_dumped: false }).text_view() =~= "Child "@
        + text::decimal(pid as int) + " terminated by signal "@ + signal_name(signal) + " "@);
}

/// The line on a process that was killed names the process and the signal, and says whether the
/// memory of the process was saved.
pub proof fn killed_process_is_named(pid: i32, name: Seq<char>)
    ensures
        terminated_view(pid, name, true) == terminated_view(pid, name, false) + "(core dumped)"@,
        terminated_view(pid, name, false) == "Child "@ + text::decimal(pid as int)
            + " terminated by signal "@ + name + " "@,
{
    assert(terminated_view(pid, name, false) =~= "Child "@ + text::decimal(pid as int)
        + " terminated by signal "@ + name + " "@);
    assert(terminated_view(pid, name, true) =~= terminated_view(pid, name, false)
        + "(core dumped)"@);
}

} // verus!
