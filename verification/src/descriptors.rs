//! How a system call changes the descriptors of the process that makes it.

use vstd::prelude::*;

use crate::syscall_info;
use crate::syscall_info::{
    fds_clone, fds_get, fds_update, fds_without, FdToFdtype, FdType, RetCode, SyscallArg,
    SyscallArgs,
};
use crate::sysno::{CLOSE, CREAT, DUP, DUP2, DUP3, FCNTL, OPEN, OPENAT, OPENAT2};

verus! {

/// The operation of `fcntl` that duplicates a descriptor.
pub const F_DUPFD: i32 = 0;

/// The operation of `fcntl` that duplicates a descriptor and marks it close-on-exec.
pub const F_DUPFD_CLOEXEC: i32 = 1030;

pub open spec fn is_open_call(sysno: u32) -> bool {
    sysno == OPEN || sysno == OPENAT || sysno == OPENAT2 || sysno == CREAT
}

pub open spec fn is_dup_call(sysno: u32) -> bool {
    sysno == DUP || sysno == DUP2 || sysno == DUP3
}

pub open spec fn is_dup_operation(op: i32) -> bool {
    op == F_DUPFD || op == F_DUPFD_CLOEXEC
}

/// The place of the path among the arguments of a call that opens a file.
pub open spec fn path_index(sysno: u32) -> int {
    if sysno == OPEN || sysno == CREAT {
        0
    } else {
        1
    }
}

/// Argument `i` is there, and it is a number.
pub open spec fn has_int(args: Seq<SyscallArg>, i: int) -> bool {
    0 <= i < args.len() && args[i] is Int
}

/// Argument `i` is there, and it is a string.
pub open spec fn has_str(args: Seq<SyscallArg>, i: int) -> bool {
    0 <= i < args.len() && args[i] is Str
}

/// Argument `i`, cut to the width of a descriptor.
pub open spec fn int_arg(args: Seq<SyscallArg>, i: int) -> i32 {
    args[i]->Int_0 as i32
}

/// The descriptor that a call to open a file returned; an error number is below zero and is
/// no descriptor.
pub open spec fn opened_fd(result: RetCode) -> int {
    match result {
        RetCode::Success(fd) => fd as int,
        RetCode::Failure(errno) => errno as int,
        RetCode::Address(_) => -1,
    }
}

/// The descriptor that a call to duplicate one returned; below zero if it failed.
pub open spec fn duplicated_fd(result: RetCode) -> int {
    match result {
        RetCode::Success(fd) => fd as int,
        _ => -1,
    }
}

/// The call is one that duplicates the descriptor in its first argument.
pub open spec fn duplicates(sysno: u32, args: Seq<SyscallArg>) -> bool {
    is_dup_call(sysno) || (sysno == FCNTL && is_dup_operation(int_arg(args, 1)))
}

/// The descriptors that a process holds after a call, where it held `fds` before.
pub open spec fn fds_after(
    fds: Map<i32, FdType>,
    sysno: u32,
    args: Seq<SyscallArg>,
    result: RetCode,
) -> Map<i32, FdType> {
    if is_open_call(sysno) {
        if opened_fd(result) >= 0 {
            fds.insert(opened_fd(result) as i32, FdType::File(args[path_index(sysno)]->Str_0))
        } else {
            fds
        }
    } else if sysno == CLOSE {
        fds.remove(int_arg(args, 0))
    } else if duplicates(sysno, args) {
        if duplicated_fd(result) >= 0 {
            fds.insert(duplicated_fd(result) as i32, fds[int_arg(args, 0)])
        } else {
            fds
        }
    } else {
        fds
    }
}

/// A call that duplicates a descriptor has arguments and a result of the right kinds, and the
/// descriptor that it duplicates is held.
pub open spec fn dup_is_valid(
    fds: Map<i32, FdType>,
    args: Seq<SyscallArg>,
    result: RetCode,
) -> bool {
    &&& result !is Address
    &&& duplicated_fd(result) >= 0 ==> has_int(args, 0) && fds.contains_key(int_arg(args, 0))
}

/// The call has arguments and a result of the right kinds, as far as they decide what it does
/// to the descriptors.
pub open spec fn call_is_valid(
    fds: Map<i32, FdType>,
    sysno: u32,
    args: Seq<SyscallArg>,
    result: RetCode,
) -> bool {
    if is_open_call(sysno) {
        &&& result !is Address
        &&& opened_fd(result) >= 0 ==> has_str(args, path_index(sysno))
    } else if sysno == CLOSE {
        has_int(args, 0)
    } else if is_dup_call(sysno) {
        dup_is_valid(fds, args, result)
    } else if sysno == FCNTL {
        &&& has_int(args, 1)
        &&& is_dup_operation(int_arg(args, 1)) ==> dup_is_valid(fds, args, result)
    } else {
        true
    }
}

/// The number in argument `i`, cut to the width of a descriptor, if there is one.
pub fn fd_argument(args: &SyscallArgs, i: usize) -> (fd: Option<i32>)
    ensures
        fd == (if has_int(args.0@, i as int) {
            Some(int_arg(args.0@, i as int))
        } else {
            None
        }),
{
    if i < args.0.len() {
        match &args.0[i] {
            SyscallArg::Int(value) => Some(*value as i32),
            _ => None,
        }
    } else {
        None
    }
}

/// The string in argument `i`, if there is one.
pub fn path_argument(args: &SyscallArgs, i: usize) -> (path: Option<&String>)
    ensures
        match path {
            Some(path) => has_str(args.0@, i as int) && *path == args.0@[i as int]->Str_0,
            None => !has_str(args.0@, i as int),
        },
{
    if i < args.0.len() {
        match &args.0[i] {
            SyscallArg::Str(path) => Some(path),
            _ => None,
        }
    } else {
        None
    }
}

fn is_open_sysno(sysno: u32) -> (is: bool)
    ensures
        is == is_open_call(sysno),
{
    sysno == OPEN || sysno == OPENAT || sysno == OPENAT2 || sysno == CREAT
}

fn is_dup_sysno(sysno: u32) -> (is: bool)
    ensures
        is == is_dup_call(sysno),
{
    sysno == DUP || sysno == DUP2 || sysno == DUP3
}

fn path_place(sysno: u32) -> (i: usize)
    ensures
        i == path_index(sysno),
{
    if sysno == OPEN || sysno == CREAT {
        0
    } else {
        1
    }
}

/// Tells whether `dup_is_valid` holds.
fn check_dup(fds: &FdToFdtype, args: &SyscallArgs, result: RetCode) -> (valid: bool)
    ensures
        valid == dup_is_valid(syscall_info::fds_contents(*fds), args.0@, result),
{
    match result {
        RetCode::Address(_) => false,
        RetCode::Failure(_) => true,
        RetCode::Success(fd) => {
            if fd < 0 {
                true
            } else {
                match fd_argument(args, 0) {
                    None => false,
                    Some(source) => fds_get(fds, source).is_some(),
                }
            }
        },
    }
}

/// Tells whether `call_is_valid` holds.
pub fn check_call(fds: &FdToFdtype, sysno: u32, args: &SyscallArgs, result: RetCode) -> (valid:
    bool)
    ensures
        valid == call_is_valid(syscall_info::fds_contents(*fds), sysno, args.0@, result),
{
    if is_open_sysno(sysno) {
        let fd: i32 = match result {
            RetCode::Address(_) => {
                return false;
            },
            RetCode::Success(fd) => fd,
            RetCode::Failure(errno) => errno,
        };
        fd < 0 || path_argument(args, path_place(sysno)).is_some()
    } else if sysno == CLOSE {
        fd_argument(args, 0).is_some()
    } else if is_dup_sysno(sysno) {
        check_dup(fds, args, result)
    } else if sysno == FCNTL {
        match fd_argument(args, 1) {
            None => false,
            Some(op) => {
                if op == F_DUPFD || op == F_DUPFD_CLOEXEC {
                    check_dup(fds, args, result)
                } else {
                    true
                }
            },
        }
    } else {
        true
    }
}

/// Makes the table in which the descriptor that a call returned stands for what its first
/// argument stands for.
fn after_dup(fds: &FdToFdtype, args: &SyscallArgs, result: RetCode) -> (after: FdToFdtype)
    requires
        dup_is_valid(syscall_info::fds_contents(*fds), args.0@, result),
    ensures
        syscall_info::fds_contents(after) == (if duplicated_fd(result) >= 0 {
            syscall_info::fds_contents(*fds).insert(
                duplicated_fd(result) as i32,
                syscall_info::fds_contents(*fds)[int_arg(args.0@, 0)],
            )
        } else {
            syscall_info::fds_contents(*fds)
        }),
{
    match result {
        RetCode::Success(fd) => {
            if fd >= 0 {
                if let Some(source) = fd_argument(args, 0) {
                    if let Some(fdtype) = fds_get(fds, source) {
                        return fds_update(fds, fd, fdtype.clone());
                    }
                }
            }
            fds_clone(fds)
        },
        _ => fds_clone(fds),
    }
}

/// Makes the table of descriptors that a process has after a call, from the one that it had
/// before.
pub fn descriptors_after(
    fds: &FdToFdtype,
    sysno: u32,
    args: &SyscallArgs,
    result: RetCode,
) -> (after: FdToFdtype)
    requires
        call_is_valid(syscall_info::fds_contents(*fds), sysno, args.0@, result),
    ensures
        syscall_info::fds_contents(after) == fds_after(syscall_info::fds_contents(*fds), sysno, args.0@, result),
{
    if is_open_sysno(sysno) {
        let fd: i32 = match result {
            RetCode::Success(fd) => fd,
            RetCode::Failure(errno) => errno,
            RetCode::Address(_) => -1,
        };
        if fd >= 0 {
            if let Some(path) = path_argument(args, path_place(sysno)) {
                return fds_update(fds, fd, FdType::File(path.clone()));
            }
        }
        fds_clone(fds)
    } else if sysno == CLOSE {
        match fd_argument(args, 0) {
            Some(fd) => fds_without(fds, fd),
            None => fds_clone(fds),
        }
    } else if is_dup_sysno(sysno) {
        after_dup(fds, args, result)
    } else if sysno == FCNTL {
        match fd_argument(args, 1) {
            Some(op) => {
                if op == F_DUPFD || op == F_DUPFD_CLOEXEC {
                    after_dup(fds, args, result)
                } else {
                    fds_clone(fds)
                }
            },
            None => fds_clone(fds),
        }
    } else {
        fds_clone(fds)
    }
}

/// A call that opens a file gives the descriptor that it returned, and no other, the path that
/// it was called with: the first argument of `open` and `creat`, the second of `openat` and
/// `openat2`.
pub proof fn opened_file_stands_behind_its_descriptor(
    fds: Map<i32, FdType>,
    sysno: u32,
    args: Seq<SyscallArg>,
    fd: i32,
    path: String,
)
    requires
        fd >= 0,
        ((sysno == OPEN || sysno == CREAT) && args.len() >= 1 && args[0] == SyscallArg::Str(path))
            || ((sysno == OPENAT || sysno == OPENAT2) && args.len() >= 2 && args[1]
            == SyscallArg::Str(path)),
    ensures
        call_is_valid(fds, sysno, args, RetCode::Success(fd)),
        fds_after(fds, sysno, args, RetCode::Success(fd)) == fds.insert(fd, FdType::File(path)),
{
}

/// A call that opens a file and fails leaves the descriptors as they are, whatever its arguments.
pub proof fn failed_open_opens_nothing(
    fds: Map<i32, FdType>,
    sysno: u32,
    args: Seq<SyscallArg>,
    errno: i32,
)
    requires
        errno < 0,
        sysno == OPEN || sysno == CREAT || sysno == OPENAT || sysno == OPENAT2,
    ensures
        call_is_valid(fds, sysno, args, RetCode::Failure(errno)),
        fds_after(fds, sysno, args, RetCode::Failure(errno)) == fds,
{
}

/// A call that closes a descriptor takes the meaning of that one away and of no other, whatever
/// it returned.
pub proof fn close_takes_one_descriptor_away(
    fds: Map<i32, FdType>,
    args: Seq<SyscallArg>,
    value: i64,
    result: RetCode,
)
    requires
        args.len() >= 1,
        args[0] == SyscallArg::Int(value),
    ensures
        call_is_valid(fds, CLOSE, args, result),
        fds_after(fds, CLOSE, args, result) == fds.remove(value as i32),
{
}

/// A call that duplicates a descriptor gives the one that it returned, zero included, what the
/// table had for its first argument, and leaves every other as it is.
pub proof fn duplicate_stands_for_the_same(
    fds: Map<i32, FdType>,
    sysno: u32,
    args: Seq<SyscallArg>,
    source: i64,
    fd: i32,
)
    requires
        fd >= 0,
        args.len() >= 1,
        args[0] == SyscallArg::Int(source),
        fds.contains_key(source as i32),
        sysno == DUP || sysno == DUP2 || sysno == DUP3 || (sysno == FCNTL && args.len() >= 2 && (
        args[1] matches SyscallArg::Int(op) && (op as i32 == 0 || op as i32 == 1030))),
    ensures
        call_is_valid(fds, sysno, args, RetCode::Success(fd)),
        fds_after(fds, sysno, args, RetCode::Success(fd)).get(fd) == fds.get(source as i32),
        fds_after(fds, sysno, args, RetCode::Success(fd)) == fds.insert(fd, fds[source as i32]),
{
}

/// A call that duplicates a descriptor and fails leaves the descriptors as they are.
pub proof fn failed_duplicate_duplicates_nothing(
    fds: Map<i32, FdType>,
    sysno: u32,
    args: Seq<SyscallArg>,
    errno: i32,
)
    requires
        sysno == DUP || sysno == DUP2 || sysno == DUP3 || (sysno == FCNTL && args.len() >= 2
            && args[1] is Int),
    ensures
        call_is_valid(fds, sysno, args, RetCode::Failure(errno)),
        fds_after(fds, sysno, args, RetCode::Failure(errno)) == fds,
{
}

/// Every other call, and `fcntl` with any other operation, leaves the descriptors as they are,
/// whatever its arguments and its outcome.
pub proof fn other_calls_leave_descriptors_alone(
    fds: Map<i32, FdType>,
    sysno: u32,
    args: Seq<SyscallArg>,
    result: RetCode,
)
    requires
        sysno != OPEN && sysno != CREAT && sysno != OPENAT && sysno != OPENAT2 && sysno != CLOSE,
        sysno != DUP && sysno != DUP2 && sysno != DUP3,
        sysno == FCNTL ==> args.len() >= 2 && (args[1] matches SyscallArg::Int(op) && op as i32 != 0
            && op as i32 != 1030),
    ensures
        call_is_valid(fds, sysno, args, result),
        fds_after(fds, sysno, args, result) == fds,
{
}

/// A call cannot be followed only where it lacks what its effect is made of: a call that opens a
/// file returned an address, or a descriptor without a path; a call that closes a descriptor, or
/// the operation of `fcntl`, has no number; or a call that duplicates a descriptor returned an
/// address, or a descriptor without a number that stands for something.
pub proof fn only_calls_that_lack_something_are_refused(
    fds: Map<i32, FdType>,
    sysno: u32,
    args: Seq<SyscallArg>,
    result: RetCode,
)
    requires
        !call_is_valid(fds, sysno, args, result),
    ensures
        ({
            let at_least_zero = match result {
                RetCode::Success(fd) => fd >= 0,
                RetCode::Failure(errno) => errno >= 0,
                RetCode::Address(_) => true,
            };
            let source_is_known = args.len() >= 1 && (args[0] matches SyscallArg::Int(source)
                && fds.contains_key(source as i32));
            &&& sysno == OPEN || sysno == CREAT ==> at_least_zero && (result is Address
                || args.len() < 1 || !(args[0] is Str))
            &&& sysno == OPENAT || sysno == OPENAT2 ==> at_least_zero && (result is Address
                || args.len() < 2 || !(args[1] is Str))
            &&& sysno == CLOSE ==> args.len() < 1 || !(args[0] is Int)
            &&& sysno == DUP || sysno == DUP2 || sysno == DUP3 ==> result is Address || (
            result is Success && at_least_zero && !source_is_known)
            &&& sysno == FCNTL ==> args.len() < 2 || !(args[1] is Int) || result is Address || (
            result is Success && at_least_zero && !source_is_known)
            &&& sysno == OPEN || sysno == CREAT || sysno == OPENAT || sysno == OPENAT2 || sysno
                == CLOSE || sysno == DUP || sysno == DUP2 || sysno == DUP3 || sysno == FCNTL
        }),
{
}

/// An argument is a number or a string exactly where there is one of that kind, and the number is
/// cut to the width of a descriptor.
pub proof fn arguments_are_read_as_they_are(args: Seq<SyscallArg>, i: int)
    ensures
        has_int(args, i) <==> 0 <= i && i < args.len() && args[i] is Int,
        has_str(args, i) <==> 0 <= i && i < args.len() && args[i] is Str,
        has_int(args, i) ==> (args[i] matches SyscallArg::Int(value) && int_arg(args, i)
            == value as i32),
        has_int(args, i) ==> (args[i] matches SyscallArg::Int(value) && (i32::MIN <= value
            <= i32::MAX ==> int_arg(args, i) == value)),
{
}

} // verus!
