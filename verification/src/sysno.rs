//! System call numbers of the x86-64 Linux interface, and per-call statistics.

use syscalls::x86_64::Sysno;
use syscalls::{SysnoMap, SysnoSet};
use vstd::prelude::*;

verus! {

pub const READ: u32 = 0;

pub const WRITE: u32 = 1;

pub const OPEN: u32 = 2;

pub const CLOSE: u32 = 3;

pub const FSTAT: u32 = 5;

pub const DUP: u32 = 32;

pub const DUP2: u32 = 33;

pub const EXECVE: u32 = 59;

pub const EXIT: u32 = 60;

pub const FCNTL: u32 = 72;

pub const CREAT: u32 = 85;

pub const EXIT_GROUP: u32 = 231;

pub const OPENAT: u32 = 257;

pub const DUP3: u32 = 292;

pub const EXECVEAT: u32 = 322;

pub const OPENAT2: u32 = 437;

/// The numbers that name a system call.
pub open spec fn is_sysno(id: u32) -> bool {
    id <= 334 || 424 <= id <= 461
}

/// Every system call number, in ascending order.
pub open spec fn sysnos() -> Seq<u32> {
    Seq::new(
        373,
        |i: int|
            if i <= 334 {
                i as u32
            } else {
                (i + 89) as u32
            },
    )
}

/// The set of every system call number.
pub open spec fn all_members() -> Set<u32> {
    Set::new(|id: u32| is_sysno(id))
}

/// `sysnos` lists exactly the numbers that name a system call, each once, in ascending order.
pub proof fn lemma_sysnos()
    ensures
        forall|id: u32| #[trigger] sysnos().contains(id) <==> is_sysno(id),
        forall|i: int, j: int| 0 <= i < j < sysnos().len() ==> sysnos()[i] < sysnos()[j],
        sysnos().no_duplicates(),
{
    assert forall|id: u32| #[trigger] sysnos().contains(id) <==> is_sysno(id) by {
        if is_sysno(id) {
            if id <= 334 {
                assert(sysnos()[id as int] == id);
            } else {
                assert(sysnos()[id - 89] == id);
            }
        }
    }
}

/// A filter that every element passes leaves a sequence as it is.
pub proof fn lemma_filter_all(ids: Seq<u32>, keep: spec_fn(u32) -> bool)
    requires
        forall|i: int| 0 <= i < ids.len() ==> keep(#[trigger] ids[i]),
    ensures
        ids.filter(keep) == ids,
    decreases ids.len(),
{
    reveal(Seq::filter);
    if ids.len() > 0 {
        lemma_filter_all(ids.drop_last(), keep);
        assert(ids.drop_last().push(ids.last()) =~= ids);
    }
}

pub open spec fn is_exec(sysno: u32) -> bool {
    sysno == EXECVE || sysno == EXECVEAT
}

pub open spec fn is_exit(sysno: u32) -> bool {
    sysno == EXIT || sysno == EXIT_GROUP
}

/// The name of a system call, as `syscalls::x86_64::Sysno::name` gives it.
pub uninterp spec fn syscall_name(id: u32) -> Seq<char>;

/// `syscalls::x86_64::Sysno::new`: it gives a value for exactly the numbers of the table.
#[verifier::external_body]
pub(crate) fn sysno_exists(id: u32) -> (exists: bool)
    ensures
        exists == is_sysno(id),
{
    Sysno::new(id as usize).is_some()
}

/// `syscalls::x86_64::Sysno::name`, for a number that names a call; `Sysno::from` panics on any
/// other.
#[verifier::external_body]
pub(crate) fn sysno_name(id: u32) -> (name: &'static str)
    requires
        is_sysno(id),
    ensures
        name@ == syscall_name(id),
{
    Sysno::from(id).name()
}

#[verifier::external_type_specification]
#[verifier::external_body]
pub struct ExSysnoSet(syscalls::SysnoSet);

/// What a `syscalls::SysnoSet` holds.
pub uninterp spec fn sysno_members(set: SysnoSet) -> Set<u32>;

/// `syscalls::SysnoSet::all`: the set of every system call.
#[verifier::external_body]
pub(crate) fn sysno_set_all() -> (set: SysnoSet)
    ensures
        sysno_members(set) == all_members(),
{
    SysnoSet::all()
}

/// `syscalls::SysnoSet::iter`: the members, in ascending order.
#[verifier::external_body]
pub(crate) fn sysno_set_iter(set: &SysnoSet) -> (ids: Vec<u32>)
    ensures
        ids@ == sysnos().filter(|id: u32| sysno_members(*set).contains(id)),
{
    set.iter().map(|sysno| sysno.id() as u32).collect()
}

/// What is counted of one system call.
#[derive(Clone, Copy, Debug, PartialEq)]
pub struct SyscallStats {
    /// Nanoseconds spent in the call.
    pub time: u128,
    /// Calls that did not fail.
    pub pass: u64,
    /// Calls that failed.
    pub fail: u64,
}

#[verifier::external_type_specification]
#[verifier::external_body]
#[verifier::reject_recursive_types(T)]
pub struct ExSysnoMap<T>(syscalls::SysnoMap<T>);

/// What a `syscalls::SysnoMap` of statistics holds.
pub uninterp spec fn stats_contents(map: SysnoMap<SyscallStats>) -> Map<u32, SyscallStats>;

/// The statistics before anything was counted.
pub open spec fn zero_stats() -> Map<u32, SyscallStats> {
    Map::new(|id: u32| is_sysno(id), |id: u32| SyscallStats { time: 0, pass: 0, fail: 0 })
}

/// `syscalls::SysnoMap::from_iter` over `SysnoSet::all`: every call is mapped to `initial`.
#[verifier::external_body]
pub(crate) fn stats_map_of(initial: SyscallStats) -> (map: SysnoMap<SyscallStats>)
    ensures
        stats_contents(map) == Map::new(|id: u32| is_sysno(id), |id: u32| initial),
{
    SysnoMap::from_iter(SysnoSet::all().iter().map(|sysno| (sysno, initial)))
}

/// `syscalls::SysnoMap::get`, for a number that names a call.
#[verifier::external_body]
pub(crate) fn stats_get(map: &SysnoMap<SyscallStats>, id: u32) -> (found: Option<SyscallStats>)
    requires
        is_sysno(id),
    ensures
        found == stats_contents(*map).get(id),
{
    map.get(Sysno::from(id)).copied()
}

/// `IndexMut` of `syscalls::SysnoMap`: the entry of a call that the map holds is replaced.
#[verifier::external_body]
pub(crate) fn stats_set(map: &mut SysnoMap<SyscallStats>, id: u32, stats: SyscallStats)
    requires
        is_sysno(id),
        stats_contents(*old(map)).contains_key(id),
    ensures
        stats_contents(*final(map)) == stats_contents(*old(map)).insert(id, stats),
{
    map[Sysno::from(id)] = stats;
}

/// `syscalls::SysnoMap::values`: the entries of a map that holds every call, in the order of
/// the calls' numbers.
#[verifier::external_body]
pub(crate) fn stats_values(map: &SysnoMap<SyscallStats>) -> (values: Vec<SyscallStats>)
    requires
        stats_contents(*map).dom() == all_members(),
    ensures
        values@ == sysnos().map_values(|id: u32| stats_contents(*map)[id]),
{
    map.values().copied().collect()
}

/// The calls have their numbers: `execve` and `execveat` run a program, `exit` and `exit_group`
/// end a process, and the table has the numbers up to 334 and those from 424 to 461.
pub proof fn calls_have_their_numbers(id: u32)
    ensures
        is_exec(id) <==> id == 59 || id == 322,
        is_exit(id) <==> id == 60 || id == 231,
        is_sysno(id) <==> id <= 334 || (424 <= id && id <= 461),
        all_members().contains(id) <==> is_sysno(id),
        zero_stats().contains_key(id) <==> is_sysno(id),
        is_sysno(id) ==> zero_stats()[id] == (SyscallStats { time: 0, pass: 0, fail: 0 }),
{
}

} // verus!
