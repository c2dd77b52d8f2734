use std::collections::VecDeque;

use procactivity::args::{ArgCommand, Args};
use procactivity::model::ReportOptions;
use procactivity::protocol::{
    Action, Event, Line, Timestamp, TraceError, WaitStatus, PTRACE_EVENT_EXEC,
    PTRACE_EVENT_EXIT, SIGCHLD, SIGSTOP, SIGTRAP,
};
use procactivity::run::Run;
use procactivity::syscall_info::{Registers, RetCode, SyscallArg, SyscallArgs};
use procactivity::sysno;
use procactivity::Tracer;

const TRACEE: i32 = 100;

fn registers(number: u64, ret: u64) -> Registers {
    Registers { orig_rax: number, rax: ret, rdi: 0, rsi: 0, rdx: 0, r10: 0, r8: 0, r9: 0 }
}

fn number(value: i64) -> SyscallArg {
    SyscallArg::Int(value)
}

fn string(value: &str) -> SyscallArg {
    SyscallArg::Str(value.to_string())
}

fn failed(errno: i64) -> u64 {
    (-errno) as u64
}

/// A traced process, as the operating system shows it.
struct Replay {
    tracer: Tracer<Vec<u8>>,
    run: Run,
    clock: i64,
    actions: Vec<Action>,
}

/// What the operating system answers while one change of state is handled.
struct Answers {
    registers: VecDeque<Option<Registers>>,
    args: VecDeque<Vec<SyscallArg>>,
    message: i64,
}

fn no_answers() -> Answers {
    Answers { registers: VecDeque::new(), args: VecDeque::new(), message: 0 }
}

impl Replay {
    fn new(args: Args) -> Replay {
        let tracer = Tracer::new(TRACEE, args, Vec::new()).unwrap();
        let run = tracer.run_tracer();
        Replay { tracer, run, clock: 1000, actions: Vec::new() }
    }

    fn step(&mut self, event: Event) -> Action {
        assert!(self.tracer.accepts(&self.run, &event));
        let action = self.tracer.step(&mut self.run, event);
        self.actions.push(action);
        action
    }

    /// Handles one change of state, up to the next wait or the end of the run.
    fn status(&mut self, status: WaitStatus, mut answers: Answers) -> Action {
        let mut action = self.step(Event::Status(status));
        loop {
            let event = match action {
                Action::GetRegisters { .. } => {
                    Event::Registers(answers.registers.pop_front().unwrap())
                }
                Action::ParseArgs { .. } => {
                    Event::Args(SyscallArgs(answers.args.pop_front().unwrap()))
                }
                Action::GetEvent { .. } => {
                    self.clock += 1;
                    let now = Timestamp { secs: self.clock, nanos: 0 };
                    Event::Message { message: answers.message, now }
                }
                Action::Wait | Action::Finish | Action::Fail(_) | Action::Propagate => {
                    assert!(answers.registers.is_empty());
                    assert!(answers.args.is_empty());
                    return action;
                }
                _ => Event::Done,
            };
            action = self.step(event);
        }
    }

    /// The stop at the start of a call.
    fn enter(&mut self, pid: i32, number: u32, args: Option<Vec<SyscallArg>>) -> Action {
        let answers = Answers {
            registers: VecDeque::from(vec![Some(registers(number as u64, failed(38)))]),
            args: args.into_iter().collect(),
            message: 1,
        };
        self.status(WaitStatus::PtraceSyscall { pid }, answers)
    }

    /// The stop at the end of a call.
    fn leave(&mut self, pid: i32, number: u32, ret: u64, args: Option<Vec<SyscallArg>>) -> Action {
        let answers = Answers {
            registers: VecDeque::from(vec![Some(registers(number as u64, ret))]),
            args: args.into_iter().collect(),
            message: 2,
        };
        self.status(WaitStatus::PtraceSyscall { pid }, answers)
    }

    /// A call of the tracee, from start to end.
    fn call(&mut self, number: u32, ret: u64, args: Vec<SyscallArg>) {
        assert_eq!(self.enter(TRACEE, number, None), Action::Wait);
        assert_eq!(self.leave(TRACEE, number, ret, Some(args)), Action::Wait);
    }

    /// A call of `execve` that fails.
    fn failed_exec(&mut self, path: &str, ret: u64, shown: bool) {
        let args = vec![string(path), SyscallArg::StrVec(Vec::new(), 0), SyscallArg::Addr(0)];
        self.enter(TRACEE, sysno::EXECVE, Some(args));
        let before = self.tracer.syscall_infos.len();
        self.leave(TRACEE, sysno::EXECVE, ret, None);
        assert_eq!(self.tracer.syscall_infos.len() > before, shown);
    }

    /// A call of `execve` that succeeds.
    fn exec(&mut self, words: &[&str]) {
        let strings = words.iter().map(|word| word.to_string()).collect();
        let args = vec![string(words[0]), SyscallArg::StrVec(strings, 0), SyscallArg::Addr(0)];
        assert_eq!(self.enter(TRACEE, sysno::EXECVE, Some(args)), Action::Wait);
        let status =
            WaitStatus::PtraceEvent { pid: TRACEE, signal: SIGTRAP, code: PTRACE_EVENT_EXEC };
        assert_eq!(self.status(status, no_answers()), Action::Wait);
    }

    fn exit(&mut self) -> Action {
        self.status(WaitStatus::Exited { pid: TRACEE, code: 0 }, no_answers())
    }

    fn lines(&self) -> Vec<Line> {
        self.actions
            .iter()
            .filter_map(|action| match action {
                Action::Write(line) => Some(*line),
                _ => None,
            })
            .collect()
    }

    fn count(&self, action: Action) -> usize {
        self.actions.iter().filter(|other| **other == action).count()
    }

    fn opened(&self) -> Vec<String> {
        assert!(self.tracer.can_list_files());
        self.tracer.get_opened_files().unwrap().into_iter().cloned().collect()
    }

    fn read(&self) -> Vec<String> {
        assert!(self.tracer.can_list_files());
        self.tracer.get_read_files().unwrap().into_iter().cloned().collect()
    }

    fn written(&self) -> Vec<String> {
        assert!(self.tracer.can_list_files());
        self.tracer.get_written_files().unwrap().into_iter().cloned().collect()
    }
}

fn following() -> Args {
    Args {
        follow_forks: true,
        collapse_exec_retries: false,
        command: Some(ArgCommand::Command(vec![])),
    }
}

fn collapsing() -> Args {
    Args { follow_forks: false, collapse_exec_retries: true, command: None }
}

const AT_FDCWD: i64 = -100;

fn open_at(replay: &mut Replay, path: &str, ret: u64) {
    replay.call(sysno::OPENAT, ret, vec![number(AT_FDCWD), string(path), number(0), number(0)]);
}

fn read_fd(replay: &mut Replay, fd: i64, ret: u64) {
    replay.call(sysno::READ, ret, vec![number(fd), SyscallArg::Addr(0x1000), number(4096)]);
}

fn write_fd(replay: &mut Replay, fd: i64, ret: u64) {
    replay.call(sysno::WRITE, ret, vec![number(fd), SyscallArg::Addr(0x1000), number(3)]);
}

fn close_fd(replay: &mut Replay, fd: i64) {
    replay.call(sysno::CLOSE, 0, vec![number(fd)]);
}

#[test]
fn procactivity_tracer_ls() {
    let mut replay = Replay::new(following());
    replay.exec(&["ls"]);
    open_at(&mut replay, "/etc/ld.so.cache", 3);
    replay.call(sysno::FSTAT, 0, vec![number(3), SyscallArg::Addr(0x2000)]);
    close_fd(&mut replay, 3);
    assert_eq!(replay.exit(), Action::Finish);

    let syscalls = replay.tracer.syscall_infos;
    let fstat_syscalls: Vec<_> =
        syscalls.iter().filter(|&si| si.syscall == sysno::FSTAT).collect();
    assert!(fstat_syscalls.len() >= 1, "At least one call to fstat during call to ls");
}

#[test]
fn exec_tracer_cat() {
    let mut replay = Replay::new(following());
    replay.exec(&["cat", ".gitignore"]);
    open_at(&mut replay, ".gitignore", 3);
    read_fd(&mut replay, 3, 8);
    write_fd(&mut replay, 1, 8);
    read_fd(&mut replay, 3, 0);
    close_fd(&mut replay, 3);
    assert_eq!(replay.exit(), Action::Finish);

    let attempted_opened_filepaths = replay.opened();
    assert!(
        attempted_opened_filepaths.iter().any(|filepath| filepath == ".gitignore"),
        "'.gitignore' should be one of the filepath opened"
    );
    assert_eq!(attempted_opened_filepaths, vec![".gitignore"]);
}

#[test]
fn exec_tracer_less() {
    let mut replay = Replay::new(following());
    replay.exec(&["less", ".gitignore"]);
    open_at(&mut replay, ".gitignore", 4);
    read_fd(&mut replay, 4, 64);
    read_fd(&mut replay, 4, 0);
    read_fd(&mut replay, 0, 1);
    assert_eq!(replay.exit(), Action::Finish);

    let read_filepaths = replay.read();
    assert!(
        read_filepaths.iter().any(|filepath| filepath == ".gitignore"),
        "'.gitignore' should be read by a call to less"
    );
    assert_eq!(read_filepaths, vec![".gitignore"]);
}

#[test]
fn tracer_simple_write() {
    let mut replay = Replay::new(following());
    replay.exec(&["tests/simple-write.sh"]);
    open_at(&mut replay, "/tmp/yo.txt", 3);
    replay.call(sysno::DUP2, 1, vec![number(3), number(1)]);
    close_fd(&mut replay, 3);
    write_fd(&mut replay, 1, 3);
    assert_eq!(replay.exit(), Action::Finish);

    let written_to_filepaths = replay.written();
    assert!(
        written_to_filepaths.iter().any(|filepath| filepath == "/tmp/yo.txt"),
        "'/tmp/yo.txt' should be written to by a call to tests/simple-write.sh"
    );
    assert_eq!(written_to_filepaths, vec!["/tmp/yo.txt"]);
}

#[test]
fn options_are_set_before_anything_else() {
    let mut replay = Replay::new(following());
    let status = WaitStatus::Stopped { pid: TRACEE, signal: SIGSTOP };
    let action = replay.step(Event::Status(status));
    assert_eq!(action, Action::InitOptions { pid: TRACEE, follow_forks: true });
    assert_eq!(replay.step(Event::Done), Action::Write(Line::Attaching { pid: TRACEE }));
    assert_eq!(replay.step(Event::Done), Action::Resume { pid: TRACEE, deliver: None });
    assert_eq!(replay.step(Event::Done), Action::Wait);
    let action = replay.step(Event::Status(status));
    assert_eq!(action, Action::Write(Line::Attaching { pid: TRACEE }));
}

#[test]
fn records_keep_the_calls_as_they_were() {
    let mut replay = Replay::new(following());
    replay.exec(&["prog", "x"]);
    open_at(&mut replay, "/a", 3);
    read_fd(&mut replay, 3, 5);
    let infos = &replay.tracer.syscall_infos;
    assert_eq!(infos.len(), 3);

    assert_eq!(infos[0].typ, "SYSCALL");
    assert_eq!(infos[0].syscall, sysno::EXECVE);
    assert_eq!(infos[0].result, RetCode::Success(0));
    assert_eq!(infos[0].duration, 0);
    assert_eq!(infos[0].args.0[0], string("prog"));

    assert_eq!(infos[1].pid, TRACEE);
    assert_eq!(infos[1].syscall, sysno::OPENAT);
    assert_eq!(infos[1].result, RetCode::Success(3));
    assert_eq!(infos[1].duration, 1_000_000_000);
    assert!(infos[1].fd_to_fdtype.is_empty());

    assert_eq!(infos[2].fd_to_fdtype.len(), 1);
    assert!(infos[2].fd_to_fdtype.contains_key(&3));
}

#[test]
fn every_way_to_open_a_file() {
    let mut replay = Replay::new(following());
    replay.call(sysno::OPEN, 3, vec![string("/open"), number(0)]);
    replay.call(sysno::CREAT, 4, vec![string("/creat"), number(0)]);
    replay.call(sysno::OPENAT2, 5, vec![number(AT_FDCWD), string("/openat2"), SyscallArg::Addr(1)]);
    open_at(&mut replay, "/openat", 6);
    for fd in 3..7 {
        read_fd(&mut replay, fd, 1);
    }
    assert_eq!(replay.read(), vec!["/open", "/creat", "/openat2", "/openat"]);
    assert_eq!(replay.opened(), vec!["/openat"]);
}

#[test]
fn failed_open_is_listed_but_gives_no_descriptor() {
    let mut replay = Replay::new(following());
    open_at(&mut replay, "/missing", failed(2));
    open_at(&mut replay, "/there", 3);
    write_fd(&mut replay, 3, failed(9));
    assert_eq!(replay.opened(), vec!["/missing", "/there"]);
    assert_eq!(replay.written(), vec!["/there"]);
    assert_eq!(replay.tracer.stats_of(sysno::OPENAT).fail, 1);
    assert_eq!(replay.tracer.stats_of(sysno::OPENAT).pass, 1);
    assert_eq!(replay.tracer.stats_of(sysno::OPENAT).time, 2_000_000_000);
}

#[test]
fn only_reads_of_at_least_one_byte_count() {
    let mut replay = Replay::new(following());
    open_at(&mut replay, "/a", 3);
    read_fd(&mut replay, 3, 0);
    read_fd(&mut replay, 3, failed(5));
    assert!(replay.read().is_empty());
    read_fd(&mut replay, 3, 1);
    assert_eq!(replay.read(), vec!["/a"]);
}

#[test]
fn closed_descriptor_stands_for_nothing() {
    let mut replay = Replay::new(following());
    open_at(&mut replay, "/a", 3);
    close_fd(&mut replay, 3);
    read_fd(&mut replay, 3, 10);
    assert!(replay.read().is_empty());
    open_at(&mut replay, "/b", 3);
    read_fd(&mut replay, 3, 10);
    assert_eq!(replay.read(), vec!["/b"]);
}

#[test]
fn duplicates_outlive_the_original() {
    let mut replay = Replay::new(following());
    open_at(&mut replay, "/a", 3);
    replay.call(sysno::DUP, 4, vec![number(3)]);
    replay.call(sysno::DUP3, 5, vec![number(4), number(5), number(0)]);
    replay.call(sysno::FCNTL, 10, vec![number(3), number(0), number(10)]);
    replay.call(sysno::FCNTL, 11, vec![number(3), number(1030), number(10)]);
    replay.call(sysno::FCNTL, 12, vec![number(3), number(1), number(0)]);
    replay.call(sysno::DUP, failed(24), vec![number(3)]);
    close_fd(&mut replay, 3);
    for fd in [3, 4, 5, 10, 11, 12] {
        write_fd(&mut replay, fd, 1);
    }
    assert_eq!(replay.written(), vec!["/a", "/a", "/a", "/a"]);
}

#[test]
fn signals_are_forwarded() {
    let mut replay = Replay::new(Args::default());
    replay.status(WaitStatus::StillAlive, no_answers());
    replay.status(WaitStatus::Stopped { pid: TRACEE, signal: SIGCHLD }, no_answers());
    assert_eq!(replay.count(Action::Resume { pid: TRACEE, deliver: Some(SIGCHLD) }), 1);
    replay.status(WaitStatus::Stopped { pid: TRACEE, signal: 10 }, no_answers());
    assert_eq!(replay.count(Action::Continue { pid: TRACEE, signal: 10 }), 1);
    replay.status(WaitStatus::Continued { pid: TRACEE }, no_answers());
    replay.status(WaitStatus::Stopped { pid: TRACEE, signal: SIGSTOP }, no_answers());
    assert!(replay.lines().is_empty());
}

#[test]
fn run_goes_on_until_the_tracee_exits() {
    let mut replay = Replay::new(following());
    let other = WaitStatus::Exited { pid: 101, code: 1 };
    assert_eq!(replay.status(other, no_answers()), Action::Wait);
    assert_eq!(replay.exit(), Action::Finish);
}

#[test]
fn killed_tracee_ends_the_run() {
    let mut replay = Replay::new(following());
    let status = WaitStatus::Signaled { pid: TRACEE, signal: 9, core_dumped: false };
    assert_eq!(replay.status(status, no_answers()), Action::Finish);
    let line = replay.lines()[0];
    assert_eq!(line.text(), "Child 100 terminated by signal SIGKILL ");
}

#[test]
fn call_of_an_unknown_process_ends_the_run() {
    let mut replay = Replay::new(Args::default());
    let action = replay.status(WaitStatus::PtraceSyscall { pid: 101 }, no_answers());
    assert_eq!(action, Action::Fail(TraceError::NoStartTime { pid: 101 }));
}

#[test]
fn children_are_followed_on_request() {
    for follow_forks in [true, false] {
        let args = Args { follow_forks, collapse_exec_retries: false, command: None };
        let mut replay = Replay::new(args);
        replay.status(WaitStatus::Stopped { pid: 101, signal: SIGSTOP }, no_answers());
        assert_eq!(replay.lines().len(), usize::from(follow_forks));
        if follow_forks {
            assert_eq!(replay.enter(101, sysno::FSTAT, None), Action::Wait);
        }
    }
}

#[test]
fn calls_of_a_followed_child_are_recorded() {
    let mut replay = Replay::new(following());
    open_at(&mut replay, "/inherited", 3);
    replay.status(WaitStatus::Stopped { pid: 101, signal: SIGSTOP }, no_answers());
    replay.enter(101, sysno::OPENAT, None);
    let args = vec![number(AT_FDCWD), string("/child"), number(0), number(0)];
    assert_eq!(replay.leave(101, sysno::OPENAT, 4, Some(args)), Action::Wait);
    let info = &replay.tracer.syscall_infos[1];
    assert_eq!((info.pid, info.syscall), (101, sysno::OPENAT));
    assert_eq!(info.result, RetCode::Success(4));
    assert_eq!(info.duration, 1_000_000_000);
    assert_eq!(info.fd_to_fdtype.len(), 1);
    for fd in [3, 4] {
        replay.enter(101, sysno::WRITE, None);
        let args = vec![number(fd), SyscallArg::Addr(0x1000), number(3)];
        replay.leave(101, sysno::WRITE, 3, Some(args));
    }
    assert_eq!(replay.written(), vec!["/inherited", "/child"]);
    assert_eq!(replay.opened(), vec!["/inherited", "/child"]);
    read_fd(&mut replay, 4, 1);
    assert!(replay.read().is_empty());
}

#[test]
fn child_and_parent_close_for_themselves() {
    let mut replay = Replay::new(following());
    open_at(&mut replay, "/a", 3);
    replay.status(WaitStatus::Stopped { pid: 101, signal: SIGSTOP }, no_answers());
    replay.enter(101, sysno::CLOSE, None);
    replay.leave(101, sysno::CLOSE, 0, Some(vec![number(3)]));
    read_fd(&mut replay, 3, 1);
    assert_eq!(replay.read(), vec!["/a"]);
    replay.enter(101, sysno::READ, None);
    let args = vec![number(3), SyscallArg::Addr(0x1000), number(1)];
    replay.leave(101, sysno::READ, 1, Some(args));
    assert_eq!(replay.read(), vec!["/a"]);
    replay.status(WaitStatus::Stopped { pid: 101, signal: SIGSTOP }, no_answers());
    replay.enter(101, sysno::FSTAT, None);
    replay.leave(101, sysno::FSTAT, 0, Some(vec![number(3), SyscallArg::Addr(0)]));
    assert!(replay.tracer.syscall_infos[4].fd_to_fdtype.is_empty());
}

#[test]
fn command_of_a_followed_child_is_recorded() {
    let mut replay = Replay::new(following());
    replay.status(WaitStatus::Stopped { pid: 101, signal: SIGSTOP }, no_answers());
    let words = vec!["ls".to_string(), "-l".to_string()];
    let args = vec![string("/bin/ls"), SyscallArg::StrVec(words.clone(), 7)];
    replay.enter(101, sysno::EXECVE, Some(args));
    replay.enter(TRACEE, sysno::FSTAT, None);
    let status = WaitStatus::PtraceEvent { pid: 101, signal: SIGTRAP, code: PTRACE_EVENT_EXEC };
    assert_eq!(replay.status(status, no_answers()), Action::Wait);
    let info = &replay.tracer.syscall_infos[0];
    assert_eq!((info.pid, info.syscall), (101, sysno::EXECVE));
    assert_eq!(info.result, RetCode::Success(0));
    assert_eq!(info.args.0[1], SyscallArg::StrVec(words, 7));
}

#[test]
fn arguments_are_read_with_the_registers_of_their_process() {
    let mut replay = Replay::new(following());
    replay.status(WaitStatus::Stopped { pid: 101, signal: SIGSTOP }, no_answers());
    for (pid, rdi) in [(TRACEE, 3), (101, 9)] {
        let entry = Registers { rdi, ..registers(5, failed(38)) };
        let answers = Answers {
            registers: VecDeque::from(vec![Some(entry)]),
            args: VecDeque::new(),
            message: 1,
        };
        replay.status(WaitStatus::PtraceSyscall { pid }, answers);
    }
    replay.leave(TRACEE, sysno::FSTAT, 0, Some(vec![number(3)]));
    let asked = replay.actions.iter().find_map(|action| match action {
        Action::ParseArgs { pid, registers, .. } => Some((*pid, registers.rdi)),
        _ => None,
    });
    assert_eq!(asked, Some((TRACEE, 3)));
}

#[test]
fn call_of_a_process_that_is_not_followed_is_not_accepted() {
    let mut replay = Replay::new(Args::default());
    let status = WaitStatus::PtraceEvent { pid: 101, signal: SIGTRAP, code: PTRACE_EVENT_EXEC };
    replay.status(WaitStatus::StillAlive, no_answers());
    replay.step(Event::Status(status));
    replay.step(Event::Registers(Some(registers(59, 0))));
    let args = Event::Args(SyscallArgs(vec![string("app")]));
    assert!(!replay.tracer.accepts(&replay.run, &args));
}

#[test]
fn unknown_system_call_is_not_accepted() {
    let mut replay = Replay::new(following());
    replay.status(WaitStatus::StillAlive, no_answers());
    replay.step(Event::Status(WaitStatus::PtraceSyscall { pid: TRACEE }));
    replay.step(Event::Message { message: 1, now: Timestamp { secs: 1, nanos: 0 } });
    for number in [335, 423, 462] {
        let event = Event::Registers(Some(registers(number, 0)));
        assert!(!replay.tracer.accepts(&replay.run, &event));
    }
    for number in [0, 334, 424, 461, u64::MAX] {
        let event = Event::Registers(Some(registers(number, 0)));
        assert!(replay.tracer.accepts(&replay.run, &event));
    }
    assert!(!replay.tracer.accepts(&replay.run, &Event::Done));
}

#[test]
fn calls_with_odd_arguments_are_not_accepted() {
    let mut replay = Replay::new(following());
    replay.enter(TRACEE, sysno::CLOSE, None);
    replay.step(Event::Status(WaitStatus::PtraceSyscall { pid: TRACEE }));
    replay.step(Event::Message { message: 2, now: Timestamp { secs: 2000, nanos: 0 } });
    replay.step(Event::Registers(Some(registers(3, 0))));
    let odd = Event::Args(SyscallArgs(vec![string("three")]));
    assert!(!replay.tracer.accepts(&replay.run, &odd));
    let none = Event::Args(SyscallArgs(vec![]));
    assert!(!replay.tracer.accepts(&replay.run, &none));
    replay.step(Event::Args(SyscallArgs(vec![number(3)])));
    assert_eq!(replay.step(Event::Done), Action::Wait);

    replay.enter(TRACEE, sysno::DUP, None);
    replay.step(Event::Status(WaitStatus::PtraceSyscall { pid: TRACEE }));
    replay.step(Event::Message { message: 2, now: Timestamp { secs: 2000, nanos: 0 } });
    replay.step(Event::Registers(Some(registers(32, 4))));
    let unknown = Event::Args(SyscallArgs(vec![number(3)]));
    assert!(!replay.tracer.accepts(&replay.run, &unknown));
}

#[test]
fn failed_requests_end_the_run() {
    let mut replay = Replay::new(following());
    assert_eq!(replay.step(Event::Failed), Action::Propagate);

    let mut replay = Replay::new(Args::default());
    replay.step(Event::Status(WaitStatus::Stopped { pid: TRACEE, signal: SIGSTOP }));
    replay.step(Event::Done);
    assert_eq!(
        replay.step(Event::Failed),
        Action::Fail(TraceError::Resume { pid: TRACEE }),
    );

    let mut replay = Replay::new(Args::default());
    let answers =
        Answers { registers: VecDeque::from(vec![None]), args: VecDeque::new(), message: 1 };
    let action = replay.status(WaitStatus::PtraceSyscall { pid: TRACEE }, answers);
    assert_eq!(action, Action::Fail(TraceError::Registers { pid: TRACEE }));
}

#[test]
fn unreadable_call_is_passed_over_with_a_warning() {
    let mut replay = Replay::new(Args::default());
    replay.enter(TRACEE, sysno::FSTAT, None);
    let answers =
        Answers { registers: VecDeque::from(vec![None]), args: VecDeque::new(), message: 2 };
    assert_eq!(replay.status(WaitStatus::PtraceSyscall { pid: TRACEE }, answers), Action::Wait);
    assert_eq!(replay.count(Action::Warn(TraceError::Registers { pid: TRACEE })), 1);

    replay.enter(TRACEE, sysno::FSTAT, None);
    let answers = Answers {
        registers: VecDeque::from(vec![Some(registers(u64::MAX, 0))]),
        args: VecDeque::new(),
        message: 2,
    };
    assert_eq!(replay.status(WaitStatus::PtraceSyscall { pid: TRACEE }, answers), Action::Wait);
    let error = TraceError::InvalidSyscall { register: u64::MAX };
    assert_eq!(replay.count(Action::Warn(error)), 1);
    assert!(replay.tracer.syscall_infos.is_empty());
}

#[test]
fn failed_exec_attempts_are_shown_by_default() {
    let mut replay = Replay::new(following());
    replay.failed_exec("/bin/app", failed(2), true);
    replay.failed_exec("/usr/bin/app", failed(2), true);
    assert_eq!(replay.tracer.stats_of(sysno::EXECVE).fail, 2);
    assert_eq!(replay.tracer.syscall_infos[0].result, RetCode::Failure(-2));
}

#[test]
fn failed_exec_attempts_are_collapsed_on_request() {
    let mut replay = Replay::new(collapsing());
    replay.failed_exec("/bin/app", failed(2), false);
    replay.failed_exec("/usr/bin/app", failed(2), false);
    replay.failed_exec("/secret/app", failed(13), false);
    replay.failed_exec("/opt/app", failed(2), false);
    assert_eq!(replay.tracer.stats_of(sysno::EXECVE).fail, 4);
    let args = vec![string("/local/app"), SyscallArg::StrVec(Vec::new(), 0)];
    replay.enter(TRACEE, sysno::EXECVE, Some(args));
    replay.leave(TRACEE, sysno::EXECVE, 0, None);
    assert_eq!(replay.lines(), vec![Line::Collapsed { pid: TRACEE, count: 4 }]);
    assert_eq!(replay.tracer.syscall_infos.len(), 1);
    assert_eq!(replay.lines()[0].text(), "[100] execve: collapsed 4 failed attempts");
}

#[test]
fn exec_without_known_arguments_is_read_on_the_spot() {
    let mut replay = Replay::new(Args::default());
    let status = WaitStatus::PtraceEvent { pid: TRACEE, signal: SIGTRAP, code: PTRACE_EVENT_EXEC };
    let answers = Answers {
        registers: VecDeque::from(vec![Some(registers(59, 0))]),
        args: VecDeque::from(vec![vec![string("/bin/app")]]),
        message: 0,
    };
    assert_eq!(replay.status(status, answers), Action::Wait);
    assert_eq!(replay.tracer.syscall_infos.len(), 1);
    let answers = Answers {
        registers: VecDeque::from(vec![Some(registers(0, 0))]),
        args: VecDeque::new(),
        message: 0,
    };
    assert_eq!(replay.status(status, answers), Action::Wait);
    assert_eq!(replay.tracer.syscall_infos.len(), 1);
}

#[test]
fn trap_is_logged_with_the_registers_of_the_entry() {
    let mut replay = Replay::new(Args::default());
    let args = vec![string("/bin/app"), SyscallArg::StrVec(Vec::new(), 0)];
    replay.enter(TRACEE, sysno::EXECVE, Some(args));
    let answers = Answers {
        registers: VecDeque::from(vec![Some(registers(59, 0))]),
        args: VecDeque::new(),
        message: 0,
    };
    let status = WaitStatus::Stopped { pid: TRACEE, signal: SIGTRAP };
    assert_eq!(replay.status(status, answers), Action::Wait);
    assert_eq!(replay.tracer.syscall_infos.len(), 1);
    assert_eq!(replay.tracer.syscall_infos[0].args.0[0], string("/bin/app"));

    let answers = Answers {
        registers: VecDeque::from(vec![Some(registers(322, 0)), Some(registers(322, 0))]),
        args: VecDeque::from(vec![vec![number(3), string("/bin/other")]]),
        message: 0,
    };
    assert_eq!(replay.status(status, answers), Action::Wait);
    assert_eq!(replay.tracer.syscall_infos[1].syscall, sysno::EXECVEAT);
}

#[test]
fn exit_is_recorded_but_not_counted() {
    let mut replay = Replay::new(Args::default());
    replay.enter(TRACEE, sysno::EXIT_GROUP, None);
    let status = WaitStatus::PtraceEvent { pid: TRACEE, signal: SIGTRAP, code: PTRACE_EVENT_EXIT };
    let exiting = Some(registers(231, failed(38)));
    let answers = Answers {
        registers: VecDeque::from(vec![exiting, exiting]),
        args: VecDeque::from(vec![vec![number(0)]]),
        message: 0,
    };
    assert_eq!(replay.status(status, answers), Action::Wait);
    assert_eq!(replay.tracer.syscall_infos[0].result, RetCode::Success(0));
    let stats = replay.tracer.stats_of(sysno::EXIT_GROUP);
    assert_eq!((stats.pass, stats.fail, stats.time), (0, 0, 0));

    let answers = Answers {
        registers: VecDeque::from(vec![Some(registers(0, 0))]),
        args: VecDeque::new(),
        message: 0,
    };
    assert_eq!(replay.status(status, answers), Action::Wait);
    assert_eq!(replay.tracer.syscall_infos.len(), 1);
}

#[test]
fn summary_is_written_on_request() {
    let mut replay = Replay::new(following());
    replay.tracer.set_report(ReportOptions { json: false, summary: true, summary_only: false });
    open_at(&mut replay, "/a", 3);
    assert_eq!(replay.exit(), Action::Finish);
    assert_eq!(replay.lines(), vec![Line::Blank]);
    assert_eq!(replay.count(Action::Report { gap: true }), 1);
    assert_eq!(replay.tracer.syscall_infos.len(), 1);

    let mut replay = Replay::new(following());
    replay.tracer.set_report(ReportOptions { json: true, summary: true, summary_only: false });
    assert_eq!(replay.exit(), Action::Finish);
    assert!(!replay.actions.iter().any(|action| matches!(action, Action::Report { .. })));
}

#[test]
fn summary_only_records_no_calls() {
    let mut replay = Replay::new(following());
    replay.tracer.set_report(ReportOptions { json: false, summary: false, summary_only: true });
    replay.enter(TRACEE, sysno::FSTAT, None);
    replay.leave(TRACEE, sysno::FSTAT, 0, None);
    replay.status(WaitStatus::Stopped { pid: 101, signal: SIGSTOP }, no_answers());
    replay.exec(&["app"]);
    assert_eq!(replay.exit(), Action::Finish);
    assert!(replay.lines().is_empty());
    assert_eq!(replay.count(Action::Report { gap: false }), 1);
    assert_eq!(replay.tracer.syscall_infos.len(), 1);
    assert_eq!(replay.tracer.stats_of(sysno::FSTAT).pass, 1);
}

#[test]
fn output_can_be_replaced() {
    let mut tracer = Tracer::new(TRACEE, Args::default(), vec![1u8]).unwrap();
    assert_eq!(*tracer.output_mut(), vec![1]);
    tracer.set_output(vec![2]);
    tracer.output_mut().push(3);
    assert_eq!(*tracer.output_mut(), vec![2, 3]);
    assert_eq!(tracer.pid(), TRACEE);
}

#[test]
fn nothing_is_logged_at_the_start_of_a_call() {
    let mut replay = Replay::new(following());
    replay.enter(TRACEE, sysno::FSTAT, None);
    replay.enter(TRACEE, sysno::EXECVE, Some(vec![string("app")]));
    assert!(replay.tracer.records().is_empty());
    for number in [sysno::FSTAT, sysno::EXECVE] {
        let stats = replay.tracer.stats_of(number);
        assert_eq!((stats.pass, stats.fail, stats.time), (0, 0, 0));
    }
}

#[test]
fn times_are_kept_for_each_process() {
    let mut replay = Replay::new(following());
    replay.tracer.set_report(ReportOptions { json: false, summary: false, summary_only: true });
    replay.status(WaitStatus::Stopped { pid: 101, signal: SIGSTOP }, no_answers());
    replay.enter(TRACEE, sysno::FSTAT, None);
    replay.enter(101, sysno::READ, None);
    replay.leave(101, sysno::READ, 1, None);
    replay.leave(TRACEE, sysno::FSTAT, 0, None);
    assert_eq!(replay.tracer.stats_of(sysno::READ).time, 1_000_000_000);
    assert_eq!(replay.tracer.stats_of(sysno::FSTAT).time, 3_000_000_000);
    assert_eq!(replay.tracer.pid(), TRACEE);
    assert!(replay.tracer.report().summary_only);
}

#[test]
fn whole_run_asks_for_options_once_and_keeps_its_records() {
    let mut replay = Replay::new(following());
    replay.tracer.set_report(ReportOptions { json: false, summary: true, summary_only: false });
    let mut seen: Vec<(i32, u32)> = Vec::new();
    replay.status(WaitStatus::Stopped { pid: 101, signal: SIGSTOP }, no_answers());
    for (pid, call) in [(TRACEE, sysno::FSTAT), (101, sysno::READ), (TRACEE, sysno::WRITE)] {
        replay.enter(pid, call, None);
        replay.leave(pid, call, 0, Some(vec![number(3)]));
        seen.push((pid, call));
        let records: Vec<_> =
            replay.tracer.records().iter().map(|info| (info.pid, info.syscall)).collect();
        assert_eq!(records, seen);
    }
    let child = WaitStatus::Exited { pid: 101, code: 0 };
    assert_eq!(replay.status(child, no_answers()), Action::Wait);
    assert_eq!(replay.exit(), Action::Finish);
    assert_eq!(replay.count(Action::InitOptions { pid: TRACEE, follow_forks: true }), 1);
    assert_eq!(replay.count(Action::Finish), 1);
    for event in [Event::Status(child), Event::Done, Event::Failed] {
        assert!(!replay.tracer.accepts(&replay.run, &event));
    }
}
