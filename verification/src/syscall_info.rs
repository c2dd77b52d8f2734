//! What is recorded of a system call.

use im::HashMap;
use vstd::prelude::*;

verus! {

/// The registers of a stopped tracee that a system call is read from.
#[derive(Clone, Copy, Debug, PartialEq)]
pub struct Registers {
    /// The number of the call.
    pub orig_rax: u64,
    /// The value that the call returned.
    pub rax: u64,
    /// The arguments of the call, first to last.
    pub rdi: u64,
    pub rsi: u64,
    pub rdx: u64,
    pub r10: u64,
    pub r8: u64,
    pub r9: u64,
}

/// The outcome of a system call.
#[derive(Clone, Copy, Debug, PartialEq)]
pub enum RetCode {
    /// A small number that is no error.
    Success(i32),
    /// A negated error number.
    Failure(i32),
    /// Anything else: an address, or a number too large to be told from one.
    Address(u64),
}

/// The largest magnitude of a value that is taken for a number and not for an address.
pub const MAX_CODE: u64 = 0x8000;

/// A register's value, read in two's complement.
pub open spec fn signed(raw: u64) -> int {
    if raw < 0x8000_0000_0000_0000 {
        raw as int
    } else {
        raw - 0x1_0000_0000_0000_0000
    }
}

/// The outcome that the raw return value `raw` stands for.
pub open spec fn ret_code(raw: u64) -> RetCode {
    if -MAX_CODE <= signed(raw) < 0 {
        RetCode::Failure(signed(raw) as i32)
    } else if 0 <= signed(raw) <= MAX_CODE {
        RetCode::Success(signed(raw) as i32)
    } else {
        RetCode::Address(raw)
    }
}

impl RetCode {
    /// Reads the outcome off the return register.
    pub fn from_raw(raw: u64) -> (code: RetCode)
        ensures
            code == ret_code(raw),
    {
        if raw <= MAX_CODE {
            RetCode::Success(raw as i32)
        } else if raw > u64::MAX - MAX_CODE {
            let magnitude: i32 = (u64::MAX - raw) as i32;
            RetCode::Failure(-magnitude - 1)
        } else {
            RetCode::Address(raw)
        }
    }
}

/// One argument of a system call.
#[derive(Debug, PartialEq)]
pub enum SyscallArg {
    Int(i64),
    Str(String),
    /// An array of strings, and the address that it was read from.
    StrVec(Vec<String>, u64),
    Addr(u64),
}

/// The arguments of a system call, first to last.
#[derive(Debug, PartialEq)]
pub struct SyscallArgs(pub Vec<SyscallArg>);

/// What a file descriptor stands for.
#[derive(Debug, PartialEq)]
pub enum FdType {
    Stdin,
    Stdout,
    Stderr,
    File(String),
}

impl Clone for FdType {
    fn clone(&self) -> (copy: Self)
        ensures
            copy == *self,
    {
        match self {
            FdType::Stdin => FdType::Stdin,
            FdType::Stdout => FdType::Stdout,
            FdType::Stderr => FdType::Stderr,
            FdType::File(path) => FdType::File(path.clone()),
        }
    }
}

#[verifier::external_type_specification]
#[verifier::external_body]
#[verifier::reject_recursive_types(K)]
#[verifier::reject_recursive_types(V)]
#[verifier::reject_recursive_types(S)]
pub struct ExHashMap<K, V, S>(im::HashMap<K, V, S>);

/// The descriptors that a process holds open.
pub type FdToFdtype = HashMap<i32, FdType>;

/// What a table of descriptors holds.
pub uninterp spec fn fds_contents(fds: HashMap<i32, FdType>) -> Map<i32, FdType>;

/// `im::HashMap::new`, for a table of descriptors: it is empty.
#[verifier::external_body]
pub(crate) fn fds_new() -> (fds: FdToFdtype)
    ensures
        fds_contents(fds) =~= Map::empty(),
{
    HashMap::new()
}

/// `im::HashMap::get`, on a table of descriptors.
#[verifier::external_body]
pub(crate) fn fds_get(fds: &FdToFdtype, fd: i32) -> (found: Option<&FdType>)
    ensures
        match found {
            Some(fdtype) => fds_contents(*fds).contains_key(fd) && *fdtype == fds_contents(*fds)[fd],
            None => !fds_contents(*fds).contains_key(fd),
        },
{
    fds.get(&fd)
}

/// `im::HashMap::update`, on a table of descriptors: a copy in which `fd` is mapped to
/// `fdtype`.
#[verifier::external_body]
pub(crate) fn fds_update(fds: &FdToFdtype, fd: i32, fdtype: FdType) -> (updated: FdToFdtype)
    ensures
        fds_contents(updated) == fds_contents(*fds).insert(fd, fdtype),
{
    fds.update(fd, fdtype)
}

/// `im::HashMap::without`, on a table of descriptors: a copy that does not hold `fd`.
#[verifier::external_body]
pub(crate) fn fds_without(fds: &FdToFdtype, fd: i32) -> (rest: FdToFdtype)
    ensures
        fds_contents(rest) == fds_contents(*fds).remove(fd),
{
    fds.without(&fd)
}

/// `Clone` of `im::HashMap`, on a table of descriptors.
#[verifier::external_body]
pub(crate) fn fds_clone(fds: &FdToFdtype) -> (copy: FdToFdtype)
    ensures
        fds_contents(copy) == fds_contents(*fds),
{
    fds.clone()
}

/// The tables of descriptors, by the process that they belong to.
pub type FdTables = HashMap<i32, HashMap<i32, FdType>>;

/// What the tables of descriptors hold, by process.
pub uninterp spec fn tables_contents(tables: HashMap<i32, HashMap<i32, FdType>>) -> Map<
    i32,
    Map<i32, FdType>,
>;

/// `im::HashMap::new`, for the tables of all processes: there is none.
#[verifier::external_body]
pub(crate) fn tables_new() -> (tables: FdTables)
    ensures
        tables_contents(tables) =~= Map::empty(),
{
    HashMap::new()
}

/// `im::HashMap::get`, on the tables of all processes.
#[verifier::external_body]
pub(crate) fn tables_get(tables: &FdTables, pid: i32) -> (found: Option<&FdToFdtype>)
    ensures
        match found {
            Some(fds) => tables_contents(*tables).contains_key(pid) && fds_contents(*fds)
                == tables_contents(*tables)[pid],
            None => !tables_contents(*tables).contains_key(pid),
        },
{
    tables.get(&pid)
}

/// `im::HashMap::update`, on the tables of all processes: a copy in which `pid` is mapped to
/// `fds`.
#[verifier::external_body]
pub(crate) fn tables_update(tables: &FdTables, pid: i32, fds: FdToFdtype) -> (updated: FdTables)
    ensures
        tables_contents(updated) == tables_contents(*tables).insert(pid, fds_contents(fds)),
{
    tables.update(pid, fds)
}

/// One recorded system call.
pub struct SyscallInfo {
    pub typ: &'static str,
    pub pid: i32,
    pub syscall: u32,
    pub args: SyscallArgs,
    pub result: RetCode,
    /// Nanoseconds spent in the call.
    pub duration: u128,
    /// The descriptors that the process held when the call was made.
    pub fd_to_fdtype: FdToFdtype,
}

/// A recorded system call, with its table of descriptors as a map.
pub struct InfoView {
    pub typ: Seq<char>,
    pub pid: i32,
    pub syscall: u32,
    pub args: Seq<SyscallArg>,
    pub result: RetCode,
    pub duration: u128,
    pub fds: Map<i32, FdType>,
}

impl View for SyscallInfo {
    type V = InfoView;

    open spec fn view(&self) -> InfoView {
        InfoView {
            typ: self.typ@,
            pid: self.pid,
            syscall: self.syscall,
            args: self.args.0@,
            result: self.result,
            duration: self.duration,
            fds: fds_contents(self.fd_to_fdtype),
        }
    }
}

/// A raw return value of no more than `0x8000` is that number; one that lies no more than
/// `0x8000` below zero in two's complement is a failure with that number; and only the others
/// are addresses.
pub proof fn outcome_follows_the_register(raw: u64)
    ensures
        match ret_code(raw) {
            RetCode::Success(value) => raw <= 0x8000 && value == raw,
            RetCode::Failure(value) => raw >= 0x1_0000_0000_0000_0000 - 0x8000 && value == raw
                - 0x1_0000_0000_0000_0000,
            RetCode::Address(address) => 0x8000 < raw < 0x1_0000_0000_0000_0000 - 0x8000 && address
                == raw,
        },
        raw <= 0x8000 <==> ret_code(raw) is Success,
        0x8000 < raw < 0x1_0000_0000_0000_0000 - 0x8000 <==> ret_code(raw) is Address,
{
}

/// A record is seen as what its fields hold.
pub proof fn record_shows_its_fields(info: SyscallInfo)
    ensures
        info@.typ == info.typ@,
        info@.pid == info.pid,
        info@.syscall == info.syscall,
        info@.args == info.args.0@,
        info@.result == info.result,
        info@.duration == info.duration,
        info@.fds == fds_contents(info.fd_to_fdtype),
{
}

} // verus!
