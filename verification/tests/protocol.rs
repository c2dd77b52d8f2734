use procactivity::arguments::{argument_sources, ArgSource};
use procactivity::order::comes_before;
use procactivity::protocol::{
    terminated_text, Line, Timestamp, TraceError, PTRACE_EVENT_EXEC, PTRACE_EVENT_EXIT, SIGCHLD,
    SIGSTOP, SIGTRAP,
};
use procactivity::run::{can_decode, get_syscall, is_exit_syscall};
use procactivity::syscall_info::Registers;
use procactivity::sysno;
use procactivity::text::{append_decimal, append_digits};

fn in_call(orig_rax: u64) -> Registers {
    Registers { orig_rax, rax: 0, rdi: 0, rsi: 0, rdx: 0, r10: 0, r8: 0, r9: 0 }
}

#[test]
fn signals_and_events_have_their_system_numbers() {
    assert_eq!(SIGTRAP, libc::SIGTRAP);
    assert_eq!(SIGCHLD, libc::SIGCHLD);
    assert_eq!(SIGSTOP, libc::SIGSTOP);
    assert_eq!(PTRACE_EVENT_EXEC, libc::PTRACE_EVENT_EXEC);
    assert_eq!(PTRACE_EVENT_EXIT, libc::PTRACE_EVENT_EXIT);
}

#[test]
fn errors_say_what_went_wrong() {
    assert_eq!(
        TraceError::Resume { pid: 7 }.message(),
        "Unable to issue a PTRACE_SYSCALL request in tracee 7",
    );
    assert_eq!(
        TraceError::Registers { pid: 120 }.message(),
        "Unable to get registers from tracee 120",
    );
    assert_eq!(
        TraceError::InvalidSyscall { register: u64::MAX }.message(),
        "Invalid syscall number 18446744073709551615",
    );
    assert_eq!(
        TraceError::NoStartTime { pid: 99 }.message(),
        "Unable to get start time for tracee 99",
    );
}

#[test]
fn lines_read_as_expected() {
    assert_eq!(Line::Attaching { pid: 41 }.text(), "Attaching to child 41");
    assert_eq!(
        Line::Collapsed { pid: 41, count: 12 }.text(),
        "[41] execve: collapsed 12 failed attempts",
    );
    assert_eq!(
        Line::Terminated { pid: 41, signal: 11, core_dumped: true }.text(),
        "Child 41 terminated by signal SIGSEGV (core dumped)",
    );
    assert_eq!(Line::Blank.text(), "");
    assert_eq!(terminated_text(5, "SIGNAME", false), "Child 5 terminated by signal SIGNAME ");
}

#[test]
fn every_signal_number_has_a_name() {
    for signal in 1..32 {
        let line = Line::Terminated { pid: 1, signal, core_dumped: false }.text();
        let name = nix::sys::signal::Signal::try_from(signal).unwrap().to_string();
        assert_eq!(line, format!("Child 1 terminated by signal {name} "));
    }
}

#[test]
fn numbers_are_written_in_decimal() {
    for n in [0, 9, 10, 4095, i32::MAX, -1, i32::MIN] {
        let mut text = "n=".to_string();
        append_decimal(&mut text, n);
        assert_eq!(text, format!("n={n}"));
    }
    let mut text = String::new();
    append_digits(&mut text, u128::MAX);
    assert_eq!(text, u128::MAX.to_string());
}

#[test]
fn durations_are_in_nanoseconds() {
    let start = Timestamp { secs: 10, nanos: 999_999_999 };
    let end = Timestamp { secs: 12, nanos: 1 };
    assert_eq!(end.duration_since(start), 1_000_000_002);
    assert_eq!(start.duration_since(start), 0);
    assert_eq!(start.duration_since(end), 0);
    let first = Timestamp { secs: i64::MIN, nanos: 0 };
    let last = Timestamp { secs: i64::MAX, nanos: 999_999_999 };
    assert_eq!(last.duration_since(first), 18_446_744_073_709_551_615_999_999_999);
}

#[test]
fn system_call_is_read_off_the_registers() {
    assert_eq!(get_syscall(&in_call(257)), Ok(257));
    let register = 1 << 32;
    assert_eq!(
        get_syscall(&in_call(register)),
        Err(TraceError::InvalidSyscall { register }),
    );
    assert!(can_decode(&in_call(334)));
    assert!(!can_decode(&in_call(335)));
    assert!(!can_decode(&in_call(u32::MAX as u64)));
    assert!(can_decode(&in_call(register)));
    assert!(is_exit_syscall(&in_call(60)));
    assert!(is_exit_syscall(&in_call(231)));
    assert!(!is_exit_syscall(&in_call(59)));
}

#[test]
fn calls_that_exist_are_those_of_the_table() {
    for id in 0..1000 {
        assert_eq!(can_decode(&in_call(id)), syscalls::Sysno::new(id as usize).is_some());
    }
}

#[test]
fn calls_are_listed_by_name() {
    assert!(comes_before("close", 3, "open", 2));
    assert!(!comes_before("open", 2, "close", 3));
    assert!(comes_before("open", 2, "openat", 257));
    assert!(!comes_before("openat", 257, "open", 2));
    assert!(comes_before("_sysctl", 156, "accept", 43));
    assert!(comes_before("dup2", 33, "dup3", 292));
    assert!(comes_before("same", 1, "same", 2));
    assert!(!comes_before("same", 2, "same", 1));
    assert!(!comes_before("same", 1, "same", 1));
    assert!(comes_before("", 5, "a", 1));
    assert!(comes_before("z", 1, "µ", 0));
}

#[test]
fn arguments_are_found_in_the_registers() {
    let registers = Registers {
        orig_rax: 257,
        rax: 0,
        rdi: (-100_i64) as u64,
        rsi: 0x1000,
        rdx: 2,
        r10: 3,
        r8: 4,
        r9: 5,
    };
    assert_eq!(
        argument_sources(sysno::OPENAT, &registers),
        vec![
            ArgSource::Int(-100),
            ArgSource::Str(0x1000),
            ArgSource::Int(2),
            ArgSource::Int(3),
        ],
    );
    assert_eq!(
        argument_sources(sysno::EXECVEAT, &registers),
        vec![
            ArgSource::Int(-100),
            ArgSource::Str(0x1000),
            ArgSource::StrVec(2),
            ArgSource::StrVec(3),
            ArgSource::Int(4),
        ],
    );
    assert_eq!(argument_sources(sysno::CLOSE, &registers), vec![ArgSource::Int(-100)]);
    let rest = argument_sources(39, &registers);
    assert_eq!(rest.len(), 6);
    assert_eq!(rest[5], ArgSource::Addr(5));
}
