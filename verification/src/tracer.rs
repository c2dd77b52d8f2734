//! The tracer: what it counts and records, and the files that come of it.

use std::collections::HashMap;

use syscalls::SysnoMap;
use vstd::prelude::*;

use crate::args::{Args, Filter};
use crate::descriptors;
use crate::model;
use crate::model::{ReportOptions, TraceState};
use crate::protocol::TraceError;
use crate::syscall_info;
use crate::syscall_info::{
    FdTables, FdToFdtype, FdType, InfoView, RetCode, SyscallArgs, SyscallInfo,
};
use crate::sysno;
use crate::sysno::{SyscallStats, EXECVE, EXIT, EXIT_GROUP, OPENAT, READ, WRITE};

verus! {

/// Follows a process and its children, and keeps what it learns of their system calls.
pub struct Tracer<W> {
    /// The recorded calls, in the order in which they were logged.
    pub syscall_infos: Vec<SyscallInfo>,
    /// Everything else, which only the tracer itself looks into.
    pub ledger: Ledger<W>,
}

/// What a tracer holds besides the recorded calls.
pub struct Ledger<W> {
    pid: i32,
    args: Args,
    filter: Filter,
    report: ReportOptions,
    stats: SysnoMap<SyscallStats>,
    fd_to_fdtype_by_pid: FdTables,
    output: W,
    exec_retry_counts: HashMap<i32, usize>,
}

/// The recorded calls, each with its table of descriptors as a map.
pub open spec fn info_views(infos: Seq<SyscallInfo>) -> Seq<InfoView> {
    infos.map_values(|info: SyscallInfo| info@)
}

impl<W> View for Tracer<W> {
    type V = TraceState;

    closed spec fn view(&self) -> TraceState {
        TraceState {
            pid: self.ledger.pid,
            follow_forks: self.ledger.args.follow_forks,
            collapse_exec_retries: self.ledger.args.collapse_exec_retries,
            report: self.ledger.report,
            stats: sysno::stats_contents(self.ledger.stats),
            infos: info_views(self.syscall_infos@),
            tables: syscall_info::tables_contents(self.ledger.fd_to_fdtype_by_pid),
            retries: self.ledger.exec_retry_counts@,
        }
    }
}

/// The recorded calls of a tracer are those in its field `syscall_infos`.
pub proof fn records_are_in_syscall_infos<W>(tracer: Tracer<W>)
    ensures
        tracer@.infos == info_views(tracer.syscall_infos@),
{
}

impl<W> Tracer<W> {
    /// The options that the tracer was made with.
    pub closed spec fn args_of(self) -> Args {
        self.ledger.args
    }

    /// Which calls are shown.
    pub closed spec fn filter_of(self) -> Filter {
        self.ledger.filter
    }

    /// Where the output goes.
    pub closed spec fn output_of(self) -> W {
        self.ledger.output
    }

    /// The tracer has the options, the filter and the output of `other`.
    pub open spec fn has_setup_of(self, other: Self) -> bool {
        &&& self.args_of() == other.args_of()
        &&& self.filter_of() == other.filter_of()
        &&& self.output_of() == other.output_of()
    }

    /// Makes a tracer for a process that holds no file open, with nothing counted or recorded.
    pub fn new(pid: i32, args: Args, output: W) -> (tracer: Result<Self, TraceError>)
        ensures
            tracer is Ok,
            tracer->Ok_0@ == model::initial_trace(
                pid,
                args.follow_forks,
                args.collapse_exec_retries,
            ),
            tracer->Ok_0@.is_valid(),
            tracer->Ok_0.args_of() == args,
            tracer->Ok_0.filter_of().is_unrestricted(),
            tracer->Ok_0.output_of() == output,
    {
        let fd_to_fdtype_by_pid = syscall_info::tables_update(
            &syscall_info::tables_new(),
            pid,
            syscall_info::fds_new(),
        );
        let filter = match args.create_filter() {
            Ok(filter) => filter,
            Err(error) => {
                return Err(error);
            },
        };
        let ledger = Ledger {
            pid,
            filter,
            args,
            report: ReportOptions { json: false, summary: false, summary_only: false },
            stats: sysno::stats_map_of(SyscallStats { time: 0, pass: 0, fail: 0 }),
            fd_to_fdtype_by_pid,
            output,
            exec_retry_counts: HashMap::new(),
        };
        let tracer = Tracer { syscall_infos: Vec::new(), ledger };
        proof {
            let initial = model::initial_trace(pid, args.follow_forks, args.collapse_exec_retries);
            assert(tracer@.infos =~= initial.infos);
            assert(tracer@.stats =~= initial.stats);
            assert(tracer@.tables =~= initial.tables);
            assert(tracer@ =~= initial);
            assert(tracer@.stats.dom() =~= sysno::all_members());
        }
        Ok(tracer)
    }

    /// Sends what follows to another output.
    pub fn set_output(&mut self, output: W)
        ensures
            final(self).output_of() == output,
            final(self).args_of() == old(self).args_of(),
            final(self).filter_of() == old(self).filter_of(),
            final(self)@ == old(self)@,
    {
        self.ledger.output = output;
    }

    /// The output, to write to.
    pub fn output_mut(&mut self) -> (output: &mut W)
        ensures
            *output == old(self).output_of(),
            final(self).output_of() == *final(output),
            final(self).args_of() == old(self).args_of(),
            final(self).filter_of() == old(self).filter_of(),
            final(self)@ == old(self)@,
    {
        &mut self.ledger.output
    }

    /// Chooses what is reported.
    pub fn set_report(&mut self, report: ReportOptions)
        ensures
            final(self)@ == (TraceState { report, ..old(self)@ }),
            final(self).has_setup_of(*old(self)),
    {
        self.ledger.report = report;
    }

    /// The process that was started to be traced.
    pub fn pid(&self) -> (pid: i32)
        ensures
            pid == self@.pid,
    {
        self.ledger.pid
    }

    /// What is reported.
    pub fn report(&self) -> (report: ReportOptions)
        ensures
            report == self@.report,
    {
        self.ledger.report
    }

    /// The recorded calls: what `syscall_infos` holds.
    pub fn records(&self) -> (infos: &Vec<SyscallInfo>)
        ensures
            *infos == self.syscall_infos,
            info_views(infos@) == self@.infos,
    {
        &self.syscall_infos
    }

    pub(crate) fn follow_forks(&self) -> (follow_forks: bool)
        ensures
            follow_forks == self@.follow_forks,
    {
        self.ledger.args.follow_forks
    }

    pub(crate) fn collapse_exec_retries(&self) -> (collapse: bool)
        ensures
            collapse == self@.collapse_exec_retries,
    {
        self.ledger.args.collapse_exec_retries
    }

    /// Asks the filter whether a call is shown.
    pub(crate) fn shows(&mut self) -> (shown: bool)
        ensures
            shown,
            final(self)@ == old(self)@,
            final(self).has_setup_of(*old(self)),
    {
        self.ledger.filter.matches()
    }

    /// The statistics of a call.
    pub fn stats_of(&self, id: u32) -> (stats: SyscallStats)
        requires
            self@.is_valid(),
            sysno::is_sysno(id),
        ensures
            stats == self@.stats[id],
    {
        match sysno::stats_get(&self.ledger.stats, id) {
            Some(stats) => stats,
            None => {
                assert(self@.stats.dom().contains(id));
                SyscallStats { time: 0, pass: 0, fail: 0 }
            },
        }
    }

    /// The numbers of the calls that are shown, in ascending order.
    pub(crate) fn enabled_sysnos(&self) -> (ids: Vec<u32>)
        ensures
            ids@ == sysno::sysnos(),
    {
        let enabled = self.ledger.filter.all_enabled();
        proof {
            sysno::lemma_sysnos();
            sysno::lemma_filter_all(
                sysno::sysnos(),
                |id: u32| sysno::sysno_members(enabled).contains(id),
            );
        }
        sysno::sysno_set_iter(&enabled)
    }

    /// The statistics of all calls, in the order of their numbers.
    pub(crate) fn all_stats(&self) -> (values: Vec<SyscallStats>)
        requires
            self@.is_valid(),
        ensures
            values@ == sysno::sysnos().map_values(|id: u32| self@.stats[id]),
    {
        sysno::stats_values(&self.ledger.stats)
    }

    /// Counts a call, as passed or as failed; a call to exit is not counted.
    pub(crate) fn count(&mut self, id: u32, code: RetCode)
        requires
            old(self)@.is_valid(),
            sysno::is_sysno(id),
            !sysno::is_exit(id) ==> if code is Failure {
                old(self)@.stats[id].fail < u64::MAX
            } else {
                old(self)@.stats[id].pass < u64::MAX
            },
        ensures
            final(self)@ == model::counted(old(self)@, id, code),
            final(self)@.is_valid(),
            final(self).has_setup_of(*old(self)),
    {
        if id != EXIT && id != EXIT_GROUP {
            let mut stats = self.stats_of(id);
            match code {
                RetCode::Failure(_) => {
                    stats.fail = stats.fail + 1;
                },
                _ => {
                    stats.pass = stats.pass + 1;
                },
            }
            assert(self@.stats.dom().contains(id));
            sysno::stats_set(&mut self.ledger.stats, id, stats);
            assert(self@.stats.dom() =~= sysno::all_members());
        }
    }

    /// Adds to the time that a call took so far.
    pub(crate) fn add_time(&mut self, id: u32, nanos: u128)
        requires
            old(self)@.is_valid(),
            sysno::is_sysno(id),
            old(self)@.stats[id].time + nanos <= model::MAX_DURATION,
        ensures
            final(self)@ == model::timed(old(self)@, id, nanos),
            final(self)@.is_valid(),
            final(self).has_setup_of(*old(self)),
    {
        let mut stats = self.stats_of(id);
        stats.time = stats.time + nanos;
        assert(self@.stats.dom().contains(id));
        sysno::stats_set(&mut self.ledger.stats, id, stats);
        assert(self@.stats.dom() =~= sysno::all_members());
    }

    /// How many failed attempts of a process to run a program were not shown.
    pub(crate) fn retries(&self, pid: i32) -> (count: Option<usize>)
        ensures
            count == self@.retries.get(pid),
    {
        broadcast use vstd::std_specs::hash::group_hash_axioms;

        match self.ledger.exec_retry_counts.get(&pid) {
            Some(count) => Some(*count),
            None => None,
        }
    }

    /// Notes a failed attempt to run a program that is not shown.
    pub(crate) fn add_retry(&mut self, pid: i32)
        requires
            model::retries_of(old(self)@, pid) < usize::MAX,
        ensures
            final(self)@ == (TraceState {
                retries: old(self)@.retries.insert(
                    pid,
                    (model::retries_of(old(self)@, pid) + 1) as usize,
                ),
                ..old(self)@
            }),
            final(self).has_setup_of(*old(self)),
    {
        broadcast use vstd::std_specs::hash::group_hash_axioms;

        let count: usize = match self.retries(pid) {
            Some(count) => count,
            None => 0,
        };
        self.ledger.exec_retry_counts.insert(pid, count + 1);
    }

    /// Forgets the attempts to run a program that were not shown.
    pub(crate) fn clear_retries(&mut self, pid: i32)
        ensures
            final(self)@ == (TraceState { retries: old(self)@.retries.remove(pid), ..old(self)@ }),
            final(self).has_setup_of(*old(self)),
    {
        broadcast use vstd::std_specs::hash::group_hash_axioms;

        self.ledger.exec_retry_counts.remove(&pid);
    }

    /// Tells whether a process has a table of descriptors.
    pub(crate) fn has_table(&self, pid: i32) -> (has: bool)
        ensures
            has == self@.tables.contains_key(pid),
    {
        syscall_info::tables_get(&self.ledger.fd_to_fdtype_by_pid, pid).is_some()
    }

    /// Tells whether a call can be recorded.
    pub(crate) fn can_store(&self, pid: i32, id: u32, args: &SyscallArgs, code: RetCode) -> (can:
        bool)
        requires
            self@.is_valid(),
        ensures
            can == model::is_storable(self@, pid, id, args.0@, code),
    {
        match syscall_info::tables_get(&self.ledger.fd_to_fdtype_by_pid, pid) {
            Some(fds) => descriptors::check_call(fds, id, args, code),
            None => false,
        }
    }

    /// Makes the record of a call, with the descriptors that its process holds.
    fn info(&self, pid: i32, id: u32, args: SyscallArgs, code: RetCode, duration: u128) -> (info:
        SyscallInfo)
        requires
            self@.tables.contains_key(pid),
        ensures
            info@ == model::info_of(self@, pid, id, args.0@, code, duration),
    {
        let fd_to_fdtype: FdToFdtype = match syscall_info::tables_get(
            &self.ledger.fd_to_fdtype_by_pid,
            pid,
        ) {
            Some(fds) => syscall_info::fds_clone(fds),
            None => syscall_info::fds_new(),
        };
        SyscallInfo { typ: "SYSCALL", pid, syscall: id, args, result: code, duration, fd_to_fdtype }
    }

    /// Gives a process a table of descriptors, if it has none.
    pub(crate) fn follow(&mut self, pid: i32)
        requires
            old(self)@.is_valid(),
        ensures
            final(self)@ == model::with_table(old(self)@, pid),
            final(self)@.is_valid(),
            final(self).has_setup_of(*old(self)),
    {
        if !self.has_table(pid) {
            let fds: FdToFdtype = match syscall_info::tables_get(
                &self.ledger.fd_to_fdtype_by_pid,
                self.ledger.pid,
            ) {
                Some(fds) => syscall_info::fds_clone(fds),
                None => syscall_info::fds_new(),
            };
            self.ledger.fd_to_fdtype_by_pid = syscall_info::tables_update(
                &self.ledger.fd_to_fdtype_by_pid,
                pid,
                fds,
            );
        }
    }

    /// Gives a call its effect on the descriptors of its process.
    fn update_fd_to_fdtype_by_pid(&mut self, info: &SyscallInfo)
        requires
            old(self)@.tables.contains_key(info.pid),
            descriptors::call_is_valid(
                old(self)@.tables[info.pid],
                info.syscall,
                info.args.0@,
                info.result,
            ),
        ensures
            final(self)@ == model::with_effect(old(self)@, info@),
            final(self).syscall_infos == old(self).syscall_infos,
            final(self).has_setup_of(*old(self)),
    {
        if let Some(fds) = syscall_info::tables_get(&self.ledger.fd_to_fdtype_by_pid, info.pid) {
            let after = descriptors::descriptors_after(
                fds,
                info.syscall,
                &info.args,
                info.result,
            );
            self.ledger.fd_to_fdtype_by_pid = syscall_info::tables_update(
                &self.ledger.fd_to_fdtype_by_pid,
                info.pid,
                after,
            );
        }
    }

    /// Gives a call its effect on the descriptors, and adds it to the records.
    fn store_syscall_info(&mut self, info: SyscallInfo)
        requires
            old(self)@.tables.contains_key(info.pid),
            descriptors::call_is_valid(
                old(self)@.tables[info.pid],
                info.syscall,
                info.args.0@,
                info.result,
            ),
        ensures
            final(self)@ == model::stored(old(self)@, info@),
            final(self).has_setup_of(*old(self)),
    {
        self.update_fd_to_fdtype_by_pid(&info);
        let ghost before = self.syscall_infos@;
        self.syscall_infos.push(info);
        assert(info_views(self.syscall_infos@) =~= info_views(before).push(info@));
    }

    /// Records a call.
    pub(crate) fn store(
        &mut self,
        pid: i32,
        id: u32,
        args: SyscallArgs,
        code: RetCode,
        duration: u128,
    )
        requires
            old(self)@.is_valid(),
            model::is_storable(old(self)@, pid, id, args.0@, code),
        ensures
            final(self)@ == model::stored(
                old(self)@,
                model::info_of(old(self)@, pid, id, args.0@, code, duration),
            ),
            final(self)@.is_valid(),
            final(self).has_setup_of(*old(self)),
    {
        proof {
            model::lemma_stored_is_valid(self@, pid, id, args.0@, code, duration);
        }
        let info = self.info(pid, id, args, code, duration);
        self.store_syscall_info(info);
    }

    /// Records a call of `exec` that succeeded.
    pub(crate) fn log_exec_event(&mut self, pid: i32, args: SyscallArgs)
        requires
            old(self)@.is_valid(),
            old(self)@.tables.contains_key(pid),
        ensures
            final(self)@ == model::stored(
                old(self)@,
                model::info_of(old(self)@, pid, EXECVE, args.0@, RetCode::Success(0), 0),
            ),
            final(self)@.is_valid(),
            final(self).has_setup_of(*old(self)),
    {
        self.store(pid, EXECVE, args, RetCode::Success(0), 0);
    }
}

/// The paths behind references to them.
pub open spec fn referents(paths: Seq<&String>) -> Seq<String> {
    paths.map_values(|path: &String| *path)
}

/// The file behind the descriptor in the first argument of a call.
fn file_of(info: &SyscallInfo) -> (path: Option<&String>)
    requires
        descriptors::has_int(info@.args, 0),
    ensures
        match path {
            Some(path) => model::file_behind(info@) == Some(*path),
            None => model::file_behind(info@) is None,
        },
{
    match descriptors::fd_argument(&info.args, 0) {
        None => None,
        Some(fd) => match syscall_info::fds_get(&info.fd_to_fdtype, fd) {
            Some(FdType::File(path)) => Some(path),
            _ => None,
        },
    }
}

/// Tells whether a call read at least one byte.
fn reads_some(info: &SyscallInfo) -> (reads: bool)
    ensures
        reads == model::reads_some(info@),
{
    info.syscall == READ && match info.result {
        RetCode::Success(count) => count >= 1,
        _ => false,
    }
}

impl<W> Tracer<W> {
    /// The files that the tracee tried to open with `openat`, in the order of the calls.
    pub fn get_opened_files(&self) -> (files: Result<Vec<&String>, TraceError>)
        requires
            model::opens_have_paths(self@.infos),
        ensures
            files is Ok,
            referents(files->Ok_0@) == model::opened_files(self@.infos),
    {
        let mut files: Vec<&String> = Vec::new();
        let mut i: usize = 0;
        let ghost infos = self@.infos;
        assert(infos.take(0) =~= Seq::empty());
        while i < self.syscall_infos.len()
            invariant
                i <= self.syscall_infos.len(),
                infos == self@.infos,
                infos.len() == self.syscall_infos.len(),
                model::opens_have_paths(infos),
                referents(files@) == model::opened_files(infos.take(i as int)),
            decreases self.syscall_infos.len() - i,
        {
            let info = &self.syscall_infos[i];
            let ghost before = files@;
            assert(infos[i as int] == info@);
            assert(infos.take(i + 1).drop_last() =~= infos.take(i as int));
            assert(infos.take(i + 1).last() == info@);
            if info.syscall == OPENAT {
                if let Some(path) = descriptors::path_argument(&info.args, 1) {
                    files.push(path);
                    assert(referents(files@) =~= referents(before).push(*path));
                }
            }
            i += 1;
        }
        assert(infos.take(i as int) =~= infos);
        Ok(files)
    }

    /// The files that the tracee read from, in the order of the calls.
    pub fn get_read_files(&self) -> (files: Result<Vec<&String>, TraceError>)
        requires
            model::reads_have_fds(self@.infos),
        ensures
            files is Ok,
            referents(files->Ok_0@) == model::read_files(self@.infos),
    {
        let mut files: Vec<&String> = Vec::new();
        let mut i: usize = 0;
        let ghost infos = self@.infos;
        assert(infos.take(0) =~= Seq::empty());
        while i < self.syscall_infos.len()
            invariant
                i <= self.syscall_infos.len(),
                infos == self@.infos,
                infos.len() == self.syscall_infos.len(),
                model::reads_have_fds(infos),
                referents(files@) == model::read_files(infos.take(i as int)),
            decreases self.syscall_infos.len() - i,
        {
            let info = &self.syscall_infos[i];
            let ghost before = files@;
            assert(infos[i as int] == info@);
            assert(infos.take(i + 1).drop_last() =~= infos.take(i as int));
            assert(infos.take(i + 1).last() == info@);
            if reads_some(info) {
                if let Some(path) = file_of(info) {
                    files.push(path);
                    assert(referents(files@) =~= referents(before).push(*path));
                }
            }
            i += 1;
        }
        assert(infos.take(i as int) =~= infos);
        Ok(files)
    }

    /// The files that the tracee wrote to, in the order of the calls.
    pub fn get_written_files(&self) -> (files: Result<Vec<&String>, TraceError>)
        requires
            model::writes_have_fds(self@.infos),
        ensures
            files is Ok,
            referents(files->Ok_0@) == model::written_files(self@.infos),
    {
        let mut files: Vec<&String> = Vec::new();
        let mut i: usize = 0;
        let ghost infos = self@.infos;
        assert(infos.take(0) =~= Seq::empty());
        while i < self.syscall_infos.len()
            invariant
                i <= self.syscall_infos.len(),
                infos == self@.infos,
                infos.len() == self.syscall_infos.len(),
                model::writes_have_fds(infos),
                referents(files@) == model::written_files(infos.take(i as int)),
            decreases self.syscall_infos.len() - i,
        {
            let info = &self.syscall_infos[i];
            let ghost before = files@;
            assert(infos[i as int] == info@);
            assert(infos.take(i + 1).drop_last() =~= infos.take(i as int));
            assert(infos.take(i + 1).last() == info@);
            if info.syscall == WRITE {
                if let Some(path) = file_of(info) {
                    files.push(path);
                    assert(referents(files@) =~= referents(before).push(*path));
                }
            }
            i += 1;
        }
        assert(infos.take(i as int) =~= infos);
        Ok(files)
    }

    /// Tells whether every recorded call has the arguments that the lists of files are made
    /// from.
    pub fn can_list_files(&self) -> (can: bool)
        ensures
            can == (model::opens_have_paths(self@.infos) && model::reads_have_fds(self@.infos)
                && model::writes_have_fds(self@.infos)),
    {
        let mut i: usize = 0;
        let ghost infos = self@.infos;
        while i < self.syscall_infos.len()
            invariant
                i <= self.syscall_infos.len(),
                infos == self@.infos,
                infos.len() == self.syscall_infos.len(),
                forall|j: int|
                    0 <= j < i ==> {
                        &&& (#[trigger] infos[j]).syscall == OPENAT ==> descriptors::has_str(
                            infos[j].args,
                            1,
                        )
                        &&& model::reads_some(infos[j]) ==> descriptors::has_int(infos[j].args, 0)
                        &&& infos[j].syscall == WRITE ==> descriptors::has_int(infos[j].args, 0)
                    },
            decreases self.syscall_infos.len() - i,
        {
            let info = &self.syscall_infos[i];
            assert(infos[i as int] == info@);
            if info.syscall == OPENAT && descriptors::path_argument(&info.args, 1).is_none() {
                return false;
            }
            if (reads_some(info) || info.syscall == WRITE) && descriptors::fd_argument(
                &info.args,
                0,
            ).is_none() {
                return false;
            }
            i += 1;
        }
        true
    }
}

/// Paths and records are seen one for one, each in its place.
pub proof fn lists_are_seen_one_for_one(paths: Seq<&String>, infos: Seq<SyscallInfo>)
    ensures
        referents(paths).len() == paths.len(),
        forall|i: int| 0 <= i < paths.len() ==> #[trigger] referents(paths)[i] == *paths[i],
        info_views(infos).len() == infos.len(),
        forall|i: int| 0 <= i < infos.len() ==> #[trigger] info_views(infos)[i] == infos[i]@,
{
}

/// A tracer that has the setup of another has its options, its filter and its output.
pub proof fn setup_is_options_filter_and_output<W>(a: Tracer<W>, b: Tracer<W>)
    ensures
        a.has_setup_of(b) <==> a.args_of() == b.args_of() && a.filter_of() == b.filter_of()
            && a.output_of() == b.output_of(),
{
}

} // verus!
