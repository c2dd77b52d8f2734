use procactivity::descriptors::{
    check_call, descriptors_after, fd_argument, path_argument, F_DUPFD, F_DUPFD_CLOEXEC,
};
use procactivity::syscall_info::{FdToFdtype, FdType, RetCode, SyscallArg, SyscallArgs};
use procactivity::sysno;
use syscalls::Sysno;

fn args(values: Vec<SyscallArg>) -> SyscallArgs {
    SyscallArgs(values)
}

fn path(value: &str) -> SyscallArg {
    SyscallArg::Str(value.to_string())
}

fn file(value: &str) -> FdType {
    FdType::File(value.to_string())
}

fn table(entries: &[(i32, &str)]) -> FdToFdtype {
    entries.iter().map(|(fd, path)| (*fd, file(path))).collect()
}

#[test]
fn outcomes_are_read_off_the_register() {
    assert_eq!(RetCode::from_raw(0), RetCode::Success(0));
    assert_eq!(RetCode::from_raw(3), RetCode::Success(3));
    assert_eq!(RetCode::from_raw(0x8000), RetCode::Success(0x8000));
    assert_eq!(RetCode::from_raw(0x8001), RetCode::Address(0x8001));
    assert_eq!(RetCode::from_raw(u64::MAX), RetCode::Failure(-1));
    assert_eq!(RetCode::from_raw(0xffff_ffff_ffff_ffda), RetCode::Failure(-38));
    assert_eq!(RetCode::from_raw((-0x8000_i64) as u64), RetCode::Failure(-0x8000));
    assert_eq!(
        RetCode::from_raw((-0x8001_i64) as u64),
        RetCode::Address((-0x8001_i64) as u64),
    );
    assert_eq!(RetCode::from_raw(1 << 63), RetCode::Address(1 << 63));
}

#[test]
fn arguments_are_told_apart() {
    let values = args(vec![
        SyscallArg::Int(0x1_0000_0007),
        path("/a"),
        SyscallArg::Addr(7),
        SyscallArg::StrVec(vec!["/a".to_string()], 7),
    ]);
    assert_eq!(fd_argument(&values, 0), Some(7));
    assert_eq!(fd_argument(&values, 1), None);
    assert_eq!(fd_argument(&values, 2), None);
    assert_eq!(fd_argument(&values, 4), None);
    assert_eq!(path_argument(&values, 1), Some(&"/a".to_string()));
    assert_eq!(path_argument(&values, 0), None);
    assert_eq!(path_argument(&values, 3), None);
    assert_eq!(path_argument(&values, 4), None);
}

#[test]
fn opening_gives_a_descriptor_its_file() {
    let before = table(&[(3, "/a")]);
    let openat = args(vec![SyscallArg::Int(-100), path("/b")]);
    let after = descriptors_after(&before, sysno::OPENAT, &openat, RetCode::Success(4));
    assert_eq!(after, table(&[(3, "/a"), (4, "/b")]));
    let replaced = descriptors_after(&before, sysno::OPENAT, &openat, RetCode::Success(3));
    assert_eq!(replaced, table(&[(3, "/b")]));
    let creat = args(vec![path("/c")]);
    let created = descriptors_after(&before, sysno::CREAT, &creat, RetCode::Success(0));
    assert_eq!(created, table(&[(0, "/c"), (3, "/a")]));
    assert_eq!(before, table(&[(3, "/a")]));
}

#[test]
fn failed_calls_change_nothing() {
    let before = table(&[(3, "/a")]);
    let failure = RetCode::Failure(-2);
    let openat = args(vec![SyscallArg::Int(-100), path("/b")]);
    assert_eq!(descriptors_after(&before, sysno::OPENAT, &openat, failure), before);
    let dup = args(vec![SyscallArg::Int(9)]);
    assert_eq!(descriptors_after(&before, sysno::DUP, &dup, failure), before);
    let fcntl = args(vec![SyscallArg::Int(9), SyscallArg::Int(F_DUPFD as i64)]);
    assert_eq!(descriptors_after(&before, sysno::FCNTL, &fcntl, failure), before);
}

#[test]
fn other_calls_change_nothing() {
    let before = table(&[(3, "/a")]);
    let none = args(Vec::new());
    assert_eq!(descriptors_after(&before, sysno::READ, &none, RetCode::Success(3)), before);
    let getfd = args(vec![SyscallArg::Int(3), SyscallArg::Int(1)]);
    assert_eq!(descriptors_after(&before, sysno::FCNTL, &getfd, RetCode::Success(1)), before);
}

#[test]
fn closing_takes_the_file_away() {
    let before = table(&[(3, "/a"), (4, "/b")]);
    let close = args(vec![SyscallArg::Int(3)]);
    let after = descriptors_after(&before, sysno::CLOSE, &close, RetCode::Success(0));
    assert_eq!(after, table(&[(4, "/b")]));
    let failed = descriptors_after(&before, sysno::CLOSE, &close, RetCode::Failure(-9));
    assert_eq!(failed, table(&[(4, "/b")]));
    let unknown = args(vec![SyscallArg::Int(7)]);
    let same = descriptors_after(&before, sysno::CLOSE, &unknown, RetCode::Success(0));
    assert_eq!(same, before);
}

#[test]
fn duplicates_stand_for_the_same_file() {
    let before = table(&[(3, "/a")]);
    let both = table(&[(3, "/a"), (7, "/a")]);
    let source = args(vec![SyscallArg::Int(3), SyscallArg::Int(7), SyscallArg::Int(0)]);
    for call in [sysno::DUP, sysno::DUP2, sysno::DUP3] {
        assert_eq!(descriptors_after(&before, call, &source, RetCode::Success(7)), both);
    }
    for op in [F_DUPFD, F_DUPFD_CLOEXEC] {
        let fcntl = args(vec![SyscallArg::Int(3), SyscallArg::Int(op as i64)]);
        assert_eq!(descriptors_after(&before, sysno::FCNTL, &fcntl, RetCode::Success(7)), both);
    }
    let mut streams = FdToFdtype::new();
    streams.insert(0, FdType::Stdin);
    streams.insert(1, FdType::Stdout);
    streams.insert(2, FdType::Stderr);
    for (fd, expected) in [(0, FdType::Stdin), (1, FdType::Stdout), (2, FdType::Stderr)] {
        let dup = args(vec![SyscallArg::Int(fd)]);
        let after = descriptors_after(&streams, sysno::DUP, &dup, RetCode::Success(9));
        assert_eq!(after.get(&9), Some(&expected));
    }
}

#[test]
fn calls_that_cannot_be_followed_are_told() {
    let fds = table(&[(3, "/a")]);
    let address = RetCode::Address(0x9000);
    let ok = RetCode::Success(4);
    let number = args(vec![SyscallArg::Int(3), SyscallArg::Int(0)]);
    let text = args(vec![path("/a"), path("/b")]);
    let none = args(Vec::new());
    assert!(check_call(&fds, sysno::OPENAT, &text, ok));
    assert!(!check_call(&fds, sysno::OPENAT, &text, address));
    assert!(!check_call(&fds, sysno::OPENAT, &number, ok));
    assert!(check_call(&fds, sysno::OPENAT, &number, RetCode::Failure(-2)));
    assert!(check_call(&fds, sysno::OPEN, &text, ok));
    assert!(!check_call(&fds, sysno::CREAT, &none, ok));
    assert!(check_call(&fds, sysno::CLOSE, &number, address));
    assert!(!check_call(&fds, sysno::CLOSE, &text, ok));
    assert!(check_call(&fds, sysno::DUP, &number, ok));
    assert!(!check_call(&fds, sysno::DUP, &number, address));
    assert!(!check_call(&fds, sysno::DUP2, &args(vec![SyscallArg::Int(5)]), ok));
    assert!(check_call(&fds, sysno::DUP3, &none, RetCode::Failure(-9)));
    assert!(check_call(&fds, sysno::FCNTL, &number, ok));
    assert!(!check_call(&fds, sysno::FCNTL, &args(vec![SyscallArg::Int(3)]), ok));
    let getfl = args(vec![SyscallArg::Int(5), SyscallArg::Int(3)]);
    assert!(check_call(&fds, sysno::FCNTL, &getfl, address));
    assert!(check_call(&fds, sysno::WRITE, &none, address));
}

#[test]
fn operations_have_their_system_numbers() {
    assert_eq!(F_DUPFD, libc::F_DUPFD);
    assert_eq!(F_DUPFD_CLOEXEC, libc::F_DUPFD_CLOEXEC);
}

#[test]
fn calls_have_their_system_numbers() {
    let pairs = [
        (sysno::READ, Sysno::read),
        (sysno::WRITE, Sysno::write),
        (sysno::OPEN, Sysno::open),
        (sysno::CLOSE, Sysno::close),
        (sysno::FSTAT, Sysno::fstat),
        (sysno::DUP, Sysno::dup),
        (sysno::DUP2, Sysno::dup2),
        (sysno::EXECVE, Sysno::execve),
        (sysno::EXIT, Sysno::exit),
        (sysno::FCNTL, Sysno::fcntl),
        (sysno::CREAT, Sysno::creat),
        (sysno::EXIT_GROUP, Sysno::exit_group),
        (sysno::OPENAT, Sysno::openat),
        (sysno::DUP3, Sysno::dup3),
        (sysno::EXECVEAT, Sysno::execveat),
        (sysno::OPENAT2, Sysno::openat2),
    ];
    for (number, call) in pairs {
        assert_eq!(number as i32, call.id());
    }
}
