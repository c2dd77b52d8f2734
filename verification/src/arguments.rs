//! Where the arguments of a system call are found.

use vstd::prelude::*;

use crate::descriptors;
use crate::syscall_info::{Registers, SyscallArg};
use crate::sysno::{
    CLOSE, CREAT, DUP, DUP2, DUP3, EXECVE, EXECVEAT, EXIT, EXIT_GROUP, FCNTL, FSTAT, OPEN, OPENAT,
    OPENAT2, READ, WRITE,
};

verus! {

/// What an argument of a system call is.
#[derive(Clone, Copy, Debug, PartialEq)]
pub enum ArgKind {
    /// A number.
    Int,
    /// The address of a string.
    Str,
    /// The address of an array of strings.
    StrVec,
    /// Any other address, or a value that is not looked into.
    Addr,
}

/// An argument, as the registers give it.
#[derive(Clone, Copy, Debug, PartialEq)]
pub enum ArgSource {
    /// The number itself.
    Int(i64),
    /// A string in the memory of the tracee.
    Str(u64),
    /// An array of strings in the memory of the tracee.
    StrVec(u64),
    /// The address itself.
    Addr(u64),
}

/// What the arguments of a system call are. Of a call that neither concerns files nor programs
/// nothing is said, and all that it could have is taken as it is.
pub open spec fn arg_kinds(sysno: u32) -> Seq<ArgKind> {
    if sysno == READ || sysno == WRITE {
        seq![ArgKind::Int, ArgKind::Addr, ArgKind::Int]
    } else if sysno == OPEN {
        seq![ArgKind::Str, ArgKind::Int, ArgKind::Int]
    } else if sysno == CREAT {
        seq![ArgKind::Str, ArgKind::Int]
    } else if sysno == OPENAT {
        seq![ArgKind::Int, ArgKind::Str, ArgKind::Int, ArgKind::Int]
    } else if sysno == OPENAT2 {
        seq![ArgKind::Int, ArgKind::Str, ArgKind::Addr, ArgKind::Int]
    } else if sysno == CLOSE || sysno == DUP || sysno == EXIT || sysno == EXIT_GROUP {
        seq![ArgKind::Int]
    } else if sysno == DUP2 {
        seq![ArgKind::Int, ArgKind::Int]
    } else if sysno == DUP3 || sysno == FCNTL {
        seq![ArgKind::Int, ArgKind::Int, ArgKind::Int]
    } else if sysno == FSTAT {
        seq![ArgKind::Int, ArgKind::Addr]
    } else if sysno == EXECVE {
        seq![ArgKind::Str, ArgKind::StrVec, ArgKind::StrVec]
    } else if sysno == EXECVEAT {
        seq![ArgKind::Int, ArgKind::Str, ArgKind::StrVec, ArgKind::StrVec, ArgKind::Int]
    } else {
        seq![
            ArgKind::Addr,
            ArgKind::Addr,
            ArgKind::Addr,
            ArgKind::Addr,
            ArgKind::Addr,
            ArgKind::Addr,
        ]
    }
}

/// The registers that hold the arguments, first to last.
pub open spec fn arg_registers(registers: Registers) -> Seq<u64> {
    seq![
        registers.rdi,
        registers.rsi,
        registers.rdx,
        registers.r10,
        registers.r8,
        registers.r9,
    ]
}

/// What a register holds, where it holds an argument of a kind.
pub open spec fn source_of(kind: ArgKind, raw: u64) -> ArgSource {
    match kind {
        ArgKind::Int => ArgSource::Int(raw as i64),
        ArgKind::Str => ArgSource::Str(raw),
        ArgKind::StrVec => ArgSource::StrVec(raw),
        ArgKind::Addr => ArgSource::Addr(raw),
    }
}

/// The arguments of a system call, as the registers give them.
pub open spec fn arg_sources(sysno: u32, registers: Registers) -> Seq<ArgSource> {
    Seq::new(
        arg_kinds(sysno).len(),
        |i: int| source_of(arg_kinds(sysno)[i], arg_registers(registers)[i]),
    )
}

fn kinds(sysno: u32) -> (kinds: Vec<ArgKind>)
    ensures
        kinds@ == arg_kinds(sysno),
{
    let kinds = if sysno == READ || sysno == WRITE {
        vec![ArgKind::Int, ArgKind::Addr, ArgKind::Int]
    } else if sysno == OPEN {
        vec![ArgKind::Str, ArgKind::Int, ArgKind::Int]
    } else if sysno == CREAT {
        vec![ArgKind::Str, ArgKind::Int]
    } else if sysno == OPENAT {
        vec![ArgKind::Int, ArgKind::Str, ArgKind::Int, ArgKind::Int]
    } else if sysno == OPENAT2 {
        vec![ArgKind::Int, ArgKind::Str, ArgKind::Addr, ArgKind::Int]
    } else if sysno == CLOSE || sysno == DUP || sysno == EXIT || sysno == EXIT_GROUP {
        vec![ArgKind::Int]
    } else if sysno == DUP2 {
        vec![ArgKind::Int, ArgKind::Int]
    } else if sysno == DUP3 || sysno == FCNTL {
        vec![ArgKind::Int, ArgKind::Int, ArgKind::Int]
    } else if sysno == FSTAT {
        vec![ArgKind::Int, ArgKind::Addr]
    } else if sysno == EXECVE {
        vec![ArgKind::Str, ArgKind::StrVec, ArgKind::StrVec]
    } else if sysno == EXECVEAT {
        vec![ArgKind::Int, ArgKind::Str, ArgKind::StrVec, ArgKind::StrVec, ArgKind::Int]
    } else {
        vec![
            ArgKind::Addr,
            ArgKind::Addr,
            ArgKind::Addr,
            ArgKind::Addr,
            ArgKind::Addr,
            ArgKind::Addr,
        ]
    };
    assert(kinds@ =~= arg_kinds(sysno));
    kinds
}

/// Finds the arguments of a system call in the registers.
pub fn argument_sources(sysno: u32, registers: &Registers) -> (sources: Vec<ArgSource>)
    ensures
        sources@ == arg_sources(sysno, *registers),
{
    let kinds = kinds(sysno);
    let raw: Vec<u64> = vec![
        registers.rdi,
        registers.rsi,
        registers.rdx,
        registers.r10,
        registers.r8,
        registers.r9,
    ];
    assert(raw@ =~= arg_registers(*registers));
    let mut sources: Vec<ArgSource> = Vec::new();
    let mut i: usize = 0;
    while i < kinds.len()
        invariant
            i <= kinds@.len() <= raw@.len(),
            kinds@ == arg_kinds(sysno),
            raw@ == arg_registers(*registers),
            sources@ == arg_sources(sysno, *registers).take(i as int),
        decreases kinds.len() - i,
    {
        let source = match kinds[i] {
            ArgKind::Int => ArgSource::Int(
                #[verifier::truncate]
                (raw[i] as i64),
            ),
            ArgKind::Str => ArgSource::Str(raw[i]),
            ArgKind::StrVec => ArgSource::StrVec(raw[i]),
            ArgKind::Addr => ArgSource::Addr(raw[i]),
        };
        sources.push(source);
        assert(sources@ =~= arg_sources(sysno, *registers).take(i + 1));
        i += 1;
    }
    assert(sources@ =~= arg_sources(sysno, *registers));
    sources
}

/// The argument is what was read from the source.
pub open spec fn is_read_from(arg: SyscallArg, source: ArgSource) -> bool {
    match source {
        ArgSource::Int(value) => arg == SyscallArg::Int(value),
        ArgSource::Str(_) => arg is Str,
        ArgSource::StrVec(address) => arg matches SyscallArg::StrVec(_, from) && from == address,
        ArgSource::Addr(address) => arg == SyscallArg::Addr(address),
    }
}

/// The arguments are what was read from the sources.
pub open spec fn are_read_from(args: Seq<SyscallArg>, sources: Seq<ArgSource>) -> bool {
    &&& args.len() == sources.len()
    &&& forall|i: int| 0 <= i < args.len() ==> is_read_from(#[trigger] args[i], sources[i])
}

/// Arguments that are read from where they are found have the kinds that the tracer relies on:
/// a call that opens a file has a path, and one that uses a descriptor has a number.
pub proof fn read_arguments_have_their_kinds(
    args: Seq<SyscallArg>,
    sysno: u32,
    registers: Registers,
)
    requires
        are_read_from(args, arg_sources(sysno, registers)),
    ensures
        descriptors::is_open_call(sysno) ==> descriptors::has_str(
            args,
            descriptors::path_index(sysno),
        ),
        sysno == CLOSE || sysno == READ || sysno == WRITE || sysno == FCNTL
            || descriptors::is_dup_call(sysno) ==> descriptors::has_int(args, 0),
        sysno == FCNTL ==> descriptors::has_int(args, 1),
{
    let sources = arg_sources(sysno, registers);
    if args.len() > 0 {
        assert(is_read_from(args[0], sources[0]));
    }
    if args.len() > 1 {
        assert(is_read_from(args[1], sources[1]));
    }
}

/// The arguments of the calls that concern files stand in `rdi`, `rsi`, `rdx` and `r10`, in this
/// order: a descriptor is a number, and a path is a string at an address.
pub proof fn file_arguments_stand_in_their_registers(registers: Registers)
    ensures
        ({
            let r = registers;
            &&& arg_sources(READ, r) == seq![
                ArgSource::Int(r.rdi as i64),
                ArgSource::Addr(r.rsi),
                ArgSource::Int(r.rdx as i64),
            ]
            &&& arg_sources(WRITE, r) == arg_sources(READ, r)
            &&& arg_sources(OPEN, r) == seq![
                ArgSource::Str(r.rdi),
                ArgSource::Int(r.rsi as i64),
                ArgSource::Int(r.rdx as i64),
            ]
            &&& arg_sources(CREAT, r) == seq![
                ArgSource::Str(r.rdi),
                ArgSource::Int(r.rsi as i64),
            ]
            &&& arg_sources(OPENAT, r) == seq![
                ArgSource::Int(r.rdi as i64),
                ArgSource::Str(r.rsi),
                ArgSource::Int(r.rdx as i64),
                ArgSource::Int(r.r10 as i64),
            ]
            &&& arg_sources(OPENAT2, r) == seq![
                ArgSource::Int(r.rdi as i64),
                ArgSource::Str(r.rsi),
                ArgSource::Addr(r.rdx),
                ArgSource::Int(r.r10 as i64),
            ]
            &&& arg_sources(CLOSE, r) == seq![ArgSource::Int(r.rdi as i64)]
            &&& arg_sources(DUP, r) == seq![ArgSource::Int(r.rdi as i64)]
            &&& arg_sources(DUP2, r) == seq![
                ArgSource::Int(r.rdi as i64),
                ArgSource::Int(r.rsi as i64),
            ]
            &&& arg_sources(DUP3, r) == seq![
                ArgSource::Int(r.rdi as i64),
                ArgSource::Int(r.rsi as i64),
                ArgSource::Int(r.rdx as i64),
            ]
            &&& arg_sources(FCNTL, r) == arg_sources(DUP3, r)
            &&& arg_sources(FSTAT, r) == seq![
                ArgSource::Int(r.rdi as i64),
                ArgSource::Addr(r.rsi),
            ]
        }),
{
    let r = registers;
    assert(arg_sources(WRITE, r) =~= arg_sources(READ, r));
    assert(arg_sources(FCNTL, r) =~= arg_sources(DUP3, r));
}

/// The arguments of the calls that run a program or end a process stand in `rdi`, `rsi`, `rdx`,
/// `r10` and `r8`, in this order.
pub proof fn program_arguments_stand_in_their_registers(registers: Registers)
    ensures
        ({
            let r = registers;
            &&& arg_sources(EXECVE, r) == seq![
                ArgSource::Str(r.rdi),
                ArgSource::StrVec(r.rsi),
                ArgSource::StrVec(r.rdx),
            ]
            &&& arg_sources(EXECVEAT, r) == seq![
                ArgSource::Int(r.rdi as i64),
                ArgSource::Str(r.rsi),
                ArgSource::StrVec(r.rdx),
                ArgSource::StrVec(r.r10),
                ArgSource::Int(r.r8 as i64),
            ]
            &&& arg_sources(EXIT, r) == seq![ArgSource::Int(r.rdi as i64)]
            &&& arg_sources(EXIT_GROUP, r) == seq![ArgSource::Int(r.rdi as i64)]
        }),
{
}

/// Argument `i` of any call is what the `i`-th of `rdi`, `rsi`, `rdx`, `r10`, `r8` and `r9`
/// holds, and a call has no more than six.
pub proof fn each_argument_stands_in_its_register(sysno: u32, registers: Registers, i: int)
    requires
        0 <= i < arg_sources(sysno, registers).len(),
    ensures
        i < 6,
        ({
            let raw = if i == 0 {
                registers.rdi
            } else if i == 1 {
                registers.rsi
            } else if i == 2 {
                registers.rdx
            } else if i == 3 {
                registers.r10
            } else if i == 4 {
                registers.r8
            } else {
                registers.r9
            };
            match arg_sources(sysno, registers)[i] {
                ArgSource::Int(value) => value == raw as i64,
                ArgSource::Str(address) => address == raw,
                ArgSource::StrVec(address) => address == raw,
                ArgSource::Addr(address) => address == raw,
            }
        }),
{
}

/// Of a call that neither concerns files nor programs, six values are taken as they are.
pub proof fn other_arguments_are_taken_as_they_are(sysno: u32, registers: Registers)
    requires
        sysno != READ && sysno != WRITE && sysno != OPEN && sysno != CREAT && sysno != OPENAT,
        sysno != OPENAT2 && sysno != CLOSE && sysno != DUP && sysno != DUP2 && sysno != DUP3,
        sysno != FCNTL && sysno != FSTAT && sysno != EXECVE && sysno != EXECVEAT,
        sysno != EXIT && sysno != EXIT_GROUP,
    ensures
        arg_sources(sysno, registers) == seq![
            ArgSource::Addr(registers.rdi),
            ArgSource::Addr(registers.rsi),
            ArgSource::Addr(registers.rdx),
            ArgSource::Addr(registers.r10),
            ArgSource::Addr(registers.r8),
            ArgSource::Addr(registers.r9),
        ],
{
}

} // verus!
