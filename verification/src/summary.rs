//! The summary of a run: how often each system call was made, and how long it took.

use comfy_table::modifiers::UTF8_ROUND_CORNERS;
use comfy_table::presets::UTF8_BORDERS_ONLY;
use comfy_table::{CellAlignment, ContentArrangement, Table};
use vstd::prelude::*;
use vstd::string::StringExecFns;

use crate::args;
use crate::model;
use crate::order;
use crate::sysno;
use crate::sysno::SyscallStats;
use crate::text;
use crate::tracer::Tracer;

verus! {

/// The amounts of some calls, added up.
pub open spec fn sum_over(ids: Seq<u32>, amount: spec_fn(u32) -> int) -> int
    decreases ids.len(),
{
    if ids.len() == 0 {
        0
    } else {
        sum_over(ids.drop_last(), amount) + amount(ids.last())
    }
}

/// How often a call was made.
pub open spec fn calls_of(stats: SyscallStats) -> int {
    stats.pass + stats.fail
}

/// How often all calls were made.
pub open spec fn total_calls(stats: Map<u32, SyscallStats>) -> int {
    sum_over(sysno::sysnos(), |id: u32| calls_of(stats[id]))
}

/// How often all calls failed.
pub open spec fn total_failed(stats: Map<u32, SyscallStats>) -> int {
    sum_over(sysno::sysnos(), |id: u32| stats[id].fail as int)
}

/// How long all calls took.
pub open spec fn total_time(stats: Map<u32, SyscallStats>) -> int {
    sum_over(sysno::sysnos(), |id: u32| stats[id].time as int)
}

/// The totals are ones that a summary can hold.
pub open spec fn is_summarizable(stats: Map<u32, SyscallStats>) -> bool {
    total_calls(stats) <= u64::MAX && total_time(stats) <= model::MAX_DURATION
}

/// An amount that is put in anywhere adds to the sum.
proof fn lemma_sum_insert(ids: Seq<u32>, at: int, id: u32, amount: spec_fn(u32) -> int)
    requires
        0 <= at <= ids.len(),
    ensures
        sum_over(ids.insert(at, id), amount) == sum_over(ids, amount) + amount(id),
    decreases ids.len(),
{
    let more = ids.insert(at, id);
    if at == ids.len() {
        assert(more.drop_last() =~= ids);
    } else {
        assert(more.drop_last() =~= ids.drop_last().insert(at, id));
        assert(more.last() == ids.last());
        lemma_sum_insert(ids.drop_last(), at, id, amount);
    }
}

/// A sum of amounts that are not below zero is no less than the sum of the first few of them.
proof fn lemma_sum_take(ids: Seq<u32>, n: int, amount: spec_fn(u32) -> int)
    requires
        0 <= n <= ids.len(),
        forall|id: u32| #[trigger] amount(id) >= 0,
    ensures
        0 <= sum_over(ids.take(n), amount) <= sum_over(ids, amount),
    decreases ids.len(),
{
    if n < ids.len() {
        lemma_sum_take(ids.drop_last(), n, amount);
        assert(ids.drop_last().take(n) =~= ids.take(n));
    } else {
        assert(ids.take(n) =~= ids);
        if n > 0 {
            lemma_sum_take(ids.drop_last(), n - 1, amount);
        }
    }
}

/// The sum of one amount more.
proof fn lemma_sum_next(ids: Seq<u32>, n: int, amount: spec_fn(u32) -> int)
    requires
        0 <= n < ids.len(),
    ensures
        sum_over(ids.take(n + 1), amount) == sum_over(ids.take(n), amount) + amount(ids[n]),
{
    assert(ids.take(n + 1).drop_last() =~= ids.take(n));
}

/// Where one amount grows and the others stay, the sum grows by as much, provided that each call
/// is summed up once.
pub proof fn lemma_sum_grows(
    ids: Seq<u32>,
    before: spec_fn(u32) -> int,
    after: spec_fn(u32) -> int,
    grown: u32,
)
    requires
        ids.no_duplicates(),
        forall|id: u32| id != grown ==> #[trigger] after(id) == before(id),
    ensures
        sum_over(ids, after) == sum_over(ids, before) + if ids.contains(grown) {
            after(grown) - before(grown)
        } else {
            0
        },
    decreases ids.len(),
{
    if ids.len() > 0 {
        let rest = ids.drop_last();
        lemma_sum_grows(rest, before, after, grown);
        if rest.contains(grown) {
            let i = choose|i: int| 0 <= i < rest.len() && rest[i] == grown;
            assert(ids[i] == grown);
        }
        if ids.contains(grown) && ids.last() != grown {
            let i = choose|i: int| 0 <= i < ids.len() && ids[i] == grown;
            assert(rest[i] == grown);
        }
        if ids.last() == grown {
            assert(ids[ids.len() - 1] == grown);
        }
    }
}

/// What is summed up of one call.
pub struct SummaryRow {
    pub sysno: u32,
    /// The name of the call.
    pub name: String,
    /// Nanoseconds spent in the call.
    pub time: u128,
    /// How often the call was made.
    pub calls: u64,
    /// How often it failed.
    pub fail: u64,
}

/// What is summed up of all calls.
#[derive(Clone, Copy, Debug, PartialEq)]
pub struct Totals {
    /// Nanoseconds spent in calls.
    pub time: u128,
    pub calls: u64,
    pub failed: u64,
}

/// A row for each call that was made, by name, and the totals.
pub struct Summary {
    pub rows: Vec<SummaryRow>,
    pub totals: Totals,
}

/// The calls that rows stand for.
pub open spec fn row_ids(rows: Seq<SummaryRow>) -> Seq<u32> {
    rows.map_values(|row: SummaryRow| row.sysno)
}

impl SummaryRow {
    /// The row is listed before `other`.
    pub open spec fn precedes(self, other: SummaryRow) -> bool {
        order::precedes(self.name@, self.sysno, other.name@, other.sysno)
    }

    /// The row holds what was counted of its call.
    pub open spec fn is_row_of(self, stats: Map<u32, SyscallStats>) -> bool {
        &&& sysno::is_sysno(self.sysno)
        &&& self.name@ == sysno::syscall_name(self.sysno)
        &&& self.time == stats[self.sysno].time
        &&& self.calls == calls_of(stats[self.sysno])
        &&& self.fail == stats[self.sysno].fail
    }
}

impl Summary {
    /// There is a row for each call that was made and for no other, in the order of their
    /// names; and the totals are those of all calls.
    pub open spec fn is_summary_of(self, stats: Map<u32, SyscallStats>) -> bool {
        &&& forall|i: int|
            0 <= i < self.rows@.len() ==> (#[trigger] self.rows@[i]).is_row_of(stats)
        &&& forall|id: u32| #[trigger]
            row_ids(self.rows@).contains(id) <==> sysno::is_sysno(id) && calls_of(stats[id]) > 0
        &&& are_in_order(self.rows@)
        &&& self.totals.time == total_time(stats)
        &&& self.totals.calls == total_calls(stats)
        &&& self.totals.failed == total_failed(stats)
    }
}

/// The rows are in the order of their names.
pub open spec fn are_in_order(rows: Seq<SummaryRow>) -> bool {
    forall|i: int, j: int|
        0 <= i < j < rows.len() ==> (#[trigger] rows[i]).precedes(#[trigger] rows[j])
}

/// The call `a` is listed before the call `b`.
pub open spec fn is_listed_before(a: u32, b: u32) -> bool {
    order::precedes(sysno::syscall_name(a), a, sysno::syscall_name(b), b)
}

/// There is one way only to list a set of calls in order.
proof fn lemma_list_is_unique(a: Seq<u32>, b: Seq<u32>)
    requires
        forall|id: u32| #[trigger] a.contains(id) <==> b.contains(id),
        forall|i: int, j: int|
            0 <= i < j < a.len() ==> is_listed_before(#[trigger] a[i], #[trigger] a[j]),
        forall|i: int, j: int|
            0 <= i < j < b.len() ==> is_listed_before(#[trigger] b[i], #[trigger] b[j]),
    ensures
        a == b,
    decreases a.len(),
{
    if a.len() == 0 {
        if b.len() > 0 {
            assert(b.contains(b[0]));
            assert(a.contains(b[0]));
        }
        assert(a =~= b);
    } else {
        assert(a.contains(a[0]));
        let last = a.last();
        assert(a[a.len() - 1] == last);
        assert(a.contains(last));
        let other = b.last();
        assert(b[b.len() - 1] == other);
        assert(b.contains(other));
        assert(a.contains(other));
        let i = choose|i: int| 0 <= i < a.len() && a[i] == other;
        let j = choose|j: int| 0 <= j < b.len() && b[j] == last;
        order::precedes_irreflexive(sysno::syscall_name(last), last);
        if other != last {
            assert(is_listed_before(a[i], a[a.len() - 1]));
            assert(is_listed_before(b[j], b[b.len() - 1]));
            order::precedes_transitive(
                sysno::syscall_name(last),
                last,
                sysno::syscall_name(other),
                other,
                sysno::syscall_name(last),
                last,
            );
        }
        let a_rest = a.drop_last();
        let b_rest = b.drop_last();
        assert forall|id: u32| #[trigger] a_rest.contains(id) <==> b_rest.contains(id) by {
            if a_rest.contains(id) {
                let k = choose|k: int| 0 <= k < a_rest.len() && a_rest[k] == id;
                assert(a[k] == id);
                assert(is_listed_before(a[k], a[a.len() - 1]));
                assert(a.contains(id));
                let k = choose|k: int| 0 <= k < b.len() && b[k] == id;
                assert(b_rest[k] == id);
            }
            if b_rest.contains(id) {
                let k = choose|k: int| 0 <= k < b_rest.len() && b_rest[k] == id;
                assert(b[k] == id);
                assert(is_listed_before(b[k], b[b.len() - 1]));
                assert(b.contains(id));
                assert(a.contains(id));
                let k = choose|k: int| 0 <= k < a.len() && a[k] == id;
                assert(a_rest[k] == id);
            }
        }
        lemma_list_is_unique(a_rest, b_rest);
        assert(a_rest.push(last) =~= a);
        assert(b_rest.push(last) =~= b);
    }
}

/// What was counted fixes its summary: two summaries of it have the same rows in the same order,
/// and the same totals.
pub proof fn summaries_agree(a: Summary, b: Summary, stats: Map<u32, SyscallStats>)
    requires
        a.is_summary_of(stats),
        b.is_summary_of(stats),
    ensures
        a.totals == b.totals,
        a.rows@.len() == b.rows@.len(),
        forall|i: int|
            0 <= i < a.rows@.len() ==> {
                &&& (#[trigger] a.rows@[i]).sysno == b.rows@[i].sysno
                &&& a.rows@[i].name@ == b.rows@[i].name@
                &&& a.rows@[i].time == b.rows@[i].time
                &&& a.rows@[i].calls == b.rows@[i].calls
                &&& a.rows@[i].fail == b.rows@[i].fail
            },
{
    let a_ids = row_ids(a.rows@);
    let b_ids = row_ids(b.rows@);
    assert forall|i: int, j: int| 0 <= i < j < a_ids.len() implies is_listed_before(
        #[trigger] a_ids[i],
        #[trigger] a_ids[j],
    ) by {
        assert(a.rows@[i].is_row_of(stats));
        assert(a.rows@[j].is_row_of(stats));
        assert(a.rows@[i].precedes(a.rows@[j]));
    }
    assert forall|i: int, j: int| 0 <= i < j < b_ids.len() implies is_listed_before(
        #[trigger] b_ids[i],
        #[trigger] b_ids[j],
    ) by {
        assert(b.rows@[i].is_row_of(stats));
        assert(b.rows@[j].is_row_of(stats));
        assert(b.rows@[i].precedes(b.rows@[j]));
    }
    lemma_list_is_unique(a_ids, b_ids);
    assert(a_ids.len() == a.rows@.len());
    assert(b_ids.len() == b.rows@.len());
    assert forall|i: int| 0 <= i < a.rows@.len() implies {
        &&& (#[trigger] a.rows@[i]).sysno == b.rows@[i].sysno
        &&& a.rows@[i].name@ == b.rows@[i].name@
        &&& a.rows@[i].time == b.rows@[i].time
        &&& a.rows@[i].calls == b.rows@[i].calls
        &&& a.rows@[i].fail == b.rows@[i].fail
    } by {
        assert(a_ids[i] == b_ids[i]);
        assert(a.rows@[i].is_row_of(stats));
        assert(b.rows@[i].is_row_of(stats));
    }
}

/// Puts a row in its place among rows that are in order.
pub fn insert_row(rows: &mut Vec<SummaryRow>, row: SummaryRow)
    requires
        are_in_order(old(rows)@),
        !row_ids(old(rows)@).contains(row.sysno),
    ensures
        are_in_order(final(rows)@),
        exists|at: int|
            0 <= at <= old(rows)@.len() && final(rows)@ == #[trigger] old(rows)@.insert(at, row),
{
    let mut at: usize = 0;
    while at < rows.len() && order::comes_before(
        rows[at].name.as_str(),
        rows[at].sysno,
        row.name.as_str(),
        row.sysno,
    )
        invariant
            at <= rows@.len(),
            forall|i: int| 0 <= i < at ==> (#[trigger] rows@[i]).precedes(row),
        decreases rows.len() - at,
    {
        at += 1;
    }
    proof {
        assert forall|i: int| at <= i < rows@.len() implies row.precedes(#[trigger] rows@[i]) by {
            let next = rows@[at as int];
            assert(row_ids(rows@)[at as int] == next.sysno);
            order::precedes_total(row.name@, row.sysno, next.name@, next.sysno);
            if i > at {
                order::precedes_transitive(
                    row.name@,
                    row.sysno,
                    next.name@,
                    next.sysno,
                    rows@[i].name@,
                    rows@[i].sysno,
                );
            }
        }
    }
    rows.insert(at, row);
    proof {
        let before = old(rows)@;
        assert(rows@ == before.insert(at as int, row));
        assert forall|i: int, j: int| 0 <= i < j < rows@.len() implies (
        #[trigger] rows@[i]).precedes(#[trigger] rows@[j]) by {
            if i < at && j > at {
                assert(rows@[j] == before[j - 1]);
                assert(before[i].precedes(before[j - 1]));
            } else if i > at {
                assert(rows@[i] == before[i - 1]);
                assert(rows@[j] == before[j - 1]);
                assert(before[i - 1].precedes(before[j - 1]));
            } else if j < at {
                assert(before[i].precedes(before[j]));
            } else if i == at {
                assert(rows@[j] == before[j - 1]);
            }
        }
    }
}

impl<W> Tracer<W> {
    /// Sums up what was counted.
    pub fn report_summary(&self) -> (summary: Summary)
        requires
            self@.is_valid(),
            is_summarizable(self@.stats),
        ensures
            summary.is_summary_of(self@.stats),
            sum_over(row_ids(summary.rows@), |id: u32| calls_of(self@.stats[id]))
                == summary.totals.calls,
            sum_over(row_ids(summary.rows@), |id: u32| self@.stats[id].fail as int)
                == summary.totals.failed,
    {
        let totals = self.totals();
        let ids = self.enabled_sysnos();
        let mut rows: Vec<SummaryRow> = Vec::new();
        let mut k: usize = 0;
        let ghost stats = self@.stats;
        let ghost all = sysno::sysnos();
        let ghost calls = |id: u32| calls_of(stats[id]);
        let ghost fails = |id: u32| stats[id].fail as int;
        proof {
            sysno::lemma_sysnos();
        }
        while k < ids.len()
            invariant
                k <= ids@.len(),
                self@.is_valid(),
                stats == self@.stats,
                is_summarizable(stats),
                all == sysno::sysnos(),
                ids@ == all,
                calls == (|id: u32| calls_of(stats[id])),
                fails == (|id: u32| stats[id].fail as int),
                forall|id: u32| #[trigger] all.contains(id) <==> sysno::is_sysno(id),
                all.no_duplicates(),
                forall|i: int| 0 <= i < rows@.len() ==> (#[trigger] rows@[i]).is_row_of(stats),
                forall|id: u32| #[trigger]
                    row_ids(rows@).contains(id) <==> all.take(k as int).contains(id) && calls_of(
                        stats[id],
                    ) > 0,
                are_in_order(rows@),
                sum_over(row_ids(rows@), calls) == sum_over(all.take(k as int), calls),
                sum_over(row_ids(rows@), fails) == sum_over(all.take(k as int), fails),
            decreases ids.len() - k,
        {
            let id: u32 = ids[k];
            assert(all.contains(id));
            let counted = self.stats_of(id);
            proof {
                lemma_sum_next(all, k as int, calls);
                lemma_sum_next(all, k as int, fails);
                lemma_sum_take(all, k as int, calls);
                lemma_sum_take(all, k + 1, calls);
                assert(all.take(k + 1) =~= all.take(k as int).push(id));
            }
            let made: u64 = counted.pass + counted.fail;
            let ghost before = rows@;
            assert forall|other: u32| #[trigger] all.take(k + 1).contains(other) <==> all.take(
                k as int,
            ).contains(other) || other == id by {
                let longer = all.take(k as int).push(id);
                if all.take(k as int).contains(other) {
                    let i = choose|i: int|
                        0 <= i < all.take(k as int).len() && all.take(k as int)[i] == other;
                    assert(longer[i] == other);
                }
                if other == id {
                    assert(longer[k as int] == other);
                }
            }
            assert(!all.take(k as int).contains(id));
            if made > 0 {
                let row = SummaryRow {
                    sysno: id,
                    name: sysno::sysno_name(id).to_owned(),
                    time: counted.time,
                    calls: made,
                    fail: counted.fail,
                };
                insert_row(&mut rows, row);
                proof {
                    let at = choose|at: int|
                        0 <= at <= before.len() && rows@ == #[trigger] before.insert(at, row);
                    let ids_before = row_ids(before);
                    assert(row_ids(rows@) =~= ids_before.insert(at, id));
                    lemma_sum_insert(ids_before, at, id, calls);
                    lemma_sum_insert(ids_before, at, id, fails);
                    lemma_insert_contains(ids_before, at, id);
                }
            }
            k += 1;
        }
        proof {
            assert(all.take(k as int) =~= all);
        }
        Summary { rows, totals }
    }

    /// Adds up what was counted of all calls.
    fn totals(&self) -> (totals: Totals)
        requires
            self@.is_valid(),
            is_summarizable(self@.stats),
        ensures
            totals.time == total_time(self@.stats),
            totals.calls == total_calls(self@.stats),
            totals.failed == total_failed(self@.stats),
    {
        match self.checked_totals() {
            Some(totals) => totals,
            None => Totals { time: 0, calls: 0, failed: 0 },
        }
    }

    /// Adds up what was counted of all calls, where a summary can hold the totals.
    fn checked_totals(&self) -> (totals: Option<Totals>)
        requires
            self@.is_valid(),
        ensures
            totals is Some <==> is_summarizable(self@.stats),
            totals matches Some(totals) ==> {
                &&& totals.time == total_time(self@.stats)
                &&& totals.calls == total_calls(self@.stats)
                &&& totals.failed == total_failed(self@.stats)
            },
    {
        let values = self.all_stats();
        let mut time: u128 = 0;
        let mut calls: u128 = 0;
        let mut failed: u128 = 0;
        let mut k: usize = 0;
        let ghost stats = self@.stats;
        let ghost all = sysno::sysnos();
        let ghost calls_fn = |id: u32| calls_of(stats[id]);
        let ghost fails_fn = |id: u32| stats[id].fail as int;
        let ghost time_fn = |id: u32| stats[id].time as int;
        proof {
            sysno::lemma_sysnos();
        }
        while k < values.len()
            invariant
                k <= values@.len(),
                self@.is_valid(),
                stats == self@.stats,
                all == sysno::sysnos(),
                forall|id: u32| #[trigger] all.contains(id) <==> sysno::is_sysno(id),
                values@ == all.map_values(|id: u32| self@.stats[id]),
                calls_fn == (|id: u32| calls_of(stats[id])),
                fails_fn == (|id: u32| stats[id].fail as int),
                time_fn == (|id: u32| stats[id].time as int),
                calls == sum_over(all.take(k as int), calls_fn),
                failed == sum_over(all.take(k as int), fails_fn),
                time == sum_over(all.take(k as int), time_fn),
                failed <= calls <= k * 0x2_0000_0000_0000_0000,
                time <= k * model::MAX_DURATION,
            decreases values.len() - k,
        {
            let value = values[k];
            proof {
                let id = all[k as int];
                assert(all.contains(id));
                assert(stats.dom().contains(id));
                assert(value == stats[id]);
                lemma_sum_next(all, k as int, calls_fn);
                lemma_sum_next(all, k as int, fails_fn);
                lemma_sum_next(all, k as int, time_fn);
            }
            time = time + value.time;
            failed = failed + value.fail as u128;
            calls = calls + value.pass as u128 + value.fail as u128;
            k += 1;
        }
        assert(all.take(k as int) =~= all);
        if calls <= u64::MAX as u128 && time <= model::MAX_DURATION {
            Some(Totals { time, calls: calls as u64, failed: failed as u64 })
        } else {
            None
        }
    }

    /// Tells whether a summary can hold the totals.
    pub fn can_summarize(&self) -> (can: bool)
        requires
            self@.is_valid(),
        ensures
            can == is_summarizable(self@.stats),
    {
        self.checked_totals().is_some()
    }
}

/// What a sequence contains after one element more was put in.
proof fn lemma_insert_contains(ids: Seq<u32>, at: int, id: u32)
    requires
        0 <= at <= ids.len(),
    ensures
        forall|other: u32| #[trigger]
            ids.insert(at, id).contains(other) <==> ids.contains(other) || other == id,
{
    let more = ids.insert(at, id);
    assert forall|other: u32| #[trigger] more.contains(other) <==> ids.contains(other) || other
        == id by {
        if ids.contains(other) {
            let i = choose|i: int| 0 <= i < ids.len() && ids[i] == other;
            if i < at {
                assert(more[i] == other);
            } else {
                assert(more[i + 1] == other);
            }
        }
        if other == id {
            assert(more[at] == other);
        }
        if more.contains(other) && other != id {
            let i = choose|i: int| 0 <= i < more.len() && more[i] == other;
            if i < at {
                assert(ids[i] == other);
            } else {
                assert(ids[i - 1] == other);
            }
        }
    }
}

#[verifier::external_type_specification]
#[verifier::external_body]
pub struct ExTable(comfy_table::Table);

/// The cells of the header of a table; none where it has no header.
pub uninterp spec fn table_header(table: Table) -> Seq<Seq<char>>;

/// The cells of the rows of a table, without its header.
pub uninterp spec fn table_rows(table: Table) -> Seq<Seq<Seq<char>>>;

/// The columns of a table whose content stands to the right.
pub uninterp spec fn right_columns(table: Table) -> Set<int>;

/// The characters that the components of a table are drawn with, with a space for each that is
/// not drawn, as `comfy_table::Table::current_style_as_preset` gives them.
pub uninterp spec fn table_style(table: Table) -> Seq<char>;

/// The content of a table is arranged with `comfy_table::ContentArrangement::Dynamic`.
pub uninterp spec fn is_dynamic(table: Table) -> bool;

/// The table is drawn and arranged like `other`.
pub open spec fn has_look_of(table: Table, other: Table) -> bool {
    table_style(table) == table_style(other) && is_dynamic(table) == is_dynamic(other)
}

/// The table holds what `other` holds.
pub open spec fn has_contents_of(table: Table, other: Table) -> bool {
    &&& table_header(table) == table_header(other)
    &&& table_rows(table) == table_rows(other)
    &&& right_columns(table) == right_columns(other)
}

/// The number of components that a table is drawn with.
pub const COMPONENTS: usize = 19;

/// A style in which the characters of a modifier replace those in their places; a space replaces
/// none.
pub open spec fn modified(style: Seq<char>, modifier: Seq<char>) -> Seq<char> {
    Seq::new(
        modifier.len(),
        |i: int|
            if modifier[i] == ' ' {
                style[i]
            } else {
                modifier[i]
            },
    )
}

/// What `comfy_table::Table::column_max_content_widths` gives for a table.
pub uninterp spec fn column_widths(
    header: Seq<Seq<char>>,
    rows: Seq<Seq<Seq<char>>>,
) -> Seq<u16>;

/// `comfy_table::Table::new`: the table has no header, no rows and no columns.
#[verifier::external_body]
fn table_new() -> (table: Table)
    ensures
        table_header(table).len() == 0,
        table_rows(table).len() == 0,
        right_columns(table) =~= Set::empty(),
{
    Table::new()
}

/// `comfy_table::presets::UTF8_BORDERS_ONLY`: the characters of the preset.
#[verifier::external_body]
fn borders_only() -> (preset: &'static str)
    ensures
        preset@ == "││──╞══╡     ──┌┐└┘"@,
{
    UTF8_BORDERS_ONLY
}

/// `comfy_table::modifiers::UTF8_ROUND_CORNERS`: the characters of the modifier.
#[verifier::external_body]
fn round_corners() -> (modifier: &'static str)
    ensures
        modifier@ == "               ╭╮╰╯"@,
{
    UTF8_ROUND_CORNERS
}

/// `comfy_table::Table::load_preset`, for a preset with a character for each component: they are
/// drawn with these characters from now on, and those with a space are not drawn.
#[verifier::external_body]
fn table_load_preset(table: &mut Table, preset: &str)
    requires
        preset@.len() == COMPONENTS,
    ensures
        table_style(*final(table)) == preset@,
        is_dynamic(*final(table)) == is_dynamic(*old(table)),
        has_contents_of(*final(table), *old(table)),
{
    table.load_preset(preset);
}

/// `comfy_table::Table::apply_modifier`, for a modifier with a character for each component: the
/// characters other than spaces take the places of those that were drawn.
#[verifier::external_body]
fn table_apply_modifier(table: &mut Table, modifier: &str)
    requires
        modifier@.len() == COMPONENTS,
    ensures
        table_style(*final(table)) == modified(table_style(*old(table)), modifier@),
        is_dynamic(*final(table)) == is_dynamic(*old(table)),
        has_contents_of(*final(table), *old(table)),
{
    table.apply_modifier(modifier);
}

/// `comfy_table::Table::set_content_arrangement`, with `ContentArrangement::Dynamic`: the content
/// is laid out to fit the terminal from now on.
#[verifier::external_body]
fn table_arrange_dynamically(table: &mut Table)
    ensures
        is_dynamic(*final(table)),
        table_style(*final(table)) == table_style(*old(table)),
        has_contents_of(*final(table), *old(table)),
{
    table.set_content_arrangement(ContentArrangement::Dynamic);
}

/// `comfy_table::Table::set_header`, for a table that has no header: it has one from now on,
/// and a column for each of its cells; no column is aligned by that.
#[verifier::external_body]
fn table_set_header(table: &mut Table, cells: Vec<String>)
    requires
        table_header(*old(table)).len() == 0,
    ensures
        table_header(*final(table)) == args::texts(cells@),
        table_rows(*final(table)) == table_rows(*old(table)),
        right_columns(*final(table)) == right_columns(*old(table)),
        has_look_of(*final(table), *old(table)),
{
    table.set_header(cells);
}

/// `comfy_table::Table::column_mut` and `Column::set_cell_alignment`: the content of a column
/// stands to the right from now on. The cells and the other columns stay as they are.
#[verifier::external_body]
fn table_align_right(table: &mut Table, column: usize)
    requires
        column < table_header(*old(table)).len(),
    ensures
        table_header(*final(table)) == table_header(*old(table)),
        table_rows(*final(table)) == table_rows(*old(table)),
        right_columns(*final(table)) == right_columns(*old(table)).insert(column as int),
        has_look_of(*final(table), *old(table)),
{
    table.column_mut(column).unwrap().set_cell_alignment(CellAlignment::Right);
}

/// `comfy_table::Table::add_row`: the row comes last; no column is aligned by that.
#[verifier::external_body]
fn table_add_row(table: &mut Table, cells: Vec<String>)
    ensures
        table_header(*final(table)) == table_header(*old(table)),
        table_rows(*final(table)) == table_rows(*old(table)).push(args::texts(cells@)),
        right_columns(*final(table)) == right_columns(*old(table)),
        has_look_of(*final(table), *old(table)),
{
    table.add_row(cells);
}

/// `comfy_table::Table::column_max_content_widths`: a width for each column, and there are as
/// many columns as the longest row or the header has cells.
#[verifier::external_body]
fn table_column_widths(table: &Table) -> (widths: Vec<u16>)
    ensures
        widths@ == column_widths(table_header(*table), table_rows(*table)),
        (forall|i: int|
            0 <= i < table_rows(*table).len() ==> (#[trigger] table_rows(*table)[i]).len()
                <= table_header(*table).len()) ==> widths@.len() == table_header(*table).len(),
{
    table.column_max_content_widths()
}

/// The header of the summary.
pub open spec fn header_view() -> Seq<Seq<char>> {
    seq!["% time"@, "time"@, "time/call"@, "calls"@, "errors"@, "syscall"@]
}

/// The characters that the summary is drawn with: borders with round corners, and nothing
/// between the columns.
pub open spec fn style_view() -> Seq<char> {
    "││──╞══╡     ──╭╮╰╯"@
}

/// A time in microseconds.
pub open spec fn micros_view(nanos: u128) -> Seq<char> {
    text::decimal((nanos / 1000) as int) + "µs"@
}

/// A row of `n` hyphens.
pub open spec fn dashes(n: nat) -> Seq<char> {
    Seq::new(n, |i: int| '-')
}

/// The number of bytes of a text.
pub open spec fn byte_len(content: Seq<char>) -> nat {
    vstd::utf8::encode_utf8(content).len()
}

/// The line between the rows and the totals: in each column as many hyphens as the widest cell
/// is wide, or as the total has bytes.
pub open spec fn divider_view(widths: Seq<u16>, totals: Seq<Seq<char>>) -> Seq<Seq<char>> {
    Seq::new(
        widths.len(),
        |i: int|
            dashes(
                if widths[i] >= byte_len(totals[i]) {
                    widths[i] as nat
                } else {
                    byte_len(totals[i])
                },
            ),
    )
}

impl SummaryRow {
    /// The cells of the row. The share of the time and the time for each call are given as
    /// text.
    pub open spec fn cells_view(self, percent: Seq<char>, per_call: Seq<char>) -> Seq<Seq<char>> {
        seq![
            percent,
            micros_view(self.time),
            per_call,
            text::decimal(self.calls as int),
            text::decimal(self.fail as int),
            self.name@,
        ]
    }

    /// Makes the cells of the row.
    pub fn cells(&self, percent: &String, per_call: &String) -> (cells: Vec<String>)
        ensures
            args::texts(cells@) == self.cells_view(percent@, per_call@),
    {
        let mut cells: Vec<String> = Vec::new();
        cells.push(percent.clone());
        cells.push(micros_text(self.time));
        cells.push(per_call.clone());
        cells.push(number_text(self.calls));
        cells.push(number_text(self.fail));
        cells.push(self.name.clone());
        assert(args::texts(cells@) =~= self.cells_view(percent@, per_call@));
        cells
    }
}

impl Totals {
    /// The cells of the totals. The time for each call is given as text.
    pub open spec fn cells_view(self, per_call: Seq<char>) -> Seq<Seq<char>> {
        seq![
            "100%"@,
            micros_view(self.time),
            per_call,
            text::decimal(self.calls as int),
            text::decimal(self.failed as int),
            "total"@,
        ]
    }

    /// Makes the cells of the totals.
    pub fn cells(&self, per_call: &String) -> (cells: Vec<String>)
        ensures
            args::texts(cells@) == self.cells_view(per_call@),
    {
        let mut cells: Vec<String> = Vec::new();
        cells.push("100%".to_owned());
        cells.push(micros_text(self.time));
        cells.push(per_call.clone());
        cells.push(number_text(self.calls));
        cells.push(number_text(self.failed));
        cells.push("total".to_owned());
        assert(args::texts(cells@) =~= self.cells_view(per_call@));
        cells
    }
}

fn micros_text(nanos: u128) -> (cell: String)
    ensures
        cell@ == micros_view(nanos),
{
    let mut cell = String::new();
    text::append_digits(&mut cell, nanos / 1000);
    cell.append("µs");
    assert(cell@ =~= micros_view(nanos));
    cell
}

fn number_text(n: u64) -> (cell: String)
    ensures
        cell@ == text::decimal(n as int),
{
    let mut cell = String::new();
    text::append_digits(&mut cell, n as u128);
    assert(cell@ =~= text::decimal(n as int));
    cell
}

fn header_texts() -> (cells: Vec<String>)
    ensures
        args::texts(cells@) == header_view(),
{
    let mut cells: Vec<String> = Vec::new();
    cells.push("% time".to_owned());
    cells.push("time".to_owned());
    cells.push("time/call".to_owned());
    cells.push("calls".to_owned());
    cells.push("errors".to_owned());
    cells.push("syscall".to_owned());
    assert(args::texts(cells@) =~= header_view());
    cells
}

fn dashes_text(n: usize) -> (cell: String)
    ensures
        cell@ == dashes(n as nat),
{
    proof {
        reveal_strlit("-");
    }
    let mut cell = String::new();
    let mut i: usize = 0;
    assert(cell@ =~= dashes(0));
    while i < n
        invariant
            i <= n,
            cell@ == dashes(i as nat),
            "-"@.len() == 1,
            "-"@[0] == '-',
        decreases n - i,
    {
        cell.append("-");
        assert(cell@ =~= dashes((i + 1) as nat));
        i += 1;
    }
    cell
}

/// Makes the line between the rows and the totals.
pub fn divider_row(widths: &Vec<u16>, totals: &Vec<String>) -> (cells: Vec<String>)
    requires
        widths@.len() <= totals@.len(),
    ensures
        args::texts(cells@) == divider_view(widths@, args::texts(totals@)),
{
    let mut cells: Vec<String> = Vec::new();
    let mut i: usize = 0;
    while i < widths.len()
        invariant
            i <= widths@.len() <= totals@.len(),
            cells@.len() == i,
            forall|k: int|
                0 <= k < i ==> (#[trigger] cells@[k])@ == divider_view(
                    widths@,
                    args::texts(totals@),
                )[k],
        decreases widths.len() - i,
    {
        let len: usize = totals[i].as_str().as_bytes().len();
        let width: usize = widths[i] as usize;
        let count: usize = if width >= len {
            width
        } else {
            len
        };
        cells.push(dashes_text(count));
        assert(args::texts(totals@)[i as int] == totals@[i as int]@);
        i += 1;
    }
    assert(args::texts(cells@) =~= divider_view(widths@, args::texts(totals@)));
    cells
}

/// The share of the time and the time for each call of a row, as text.
pub type RowRates = (String, String);

impl Summary {
    /// The cells of the rows, where the rates are given as text.
    pub open spec fn rows_view(self, rates: Seq<RowRates>) -> Seq<Seq<Seq<char>>> {
        Seq::new(
            self.rows@.len(),
            |i: int| self.rows@[i].cells_view(rates[i].0@, rates[i].1@),
        )
    }

    /// Lays the summary out as a table: the rows, a line, and the totals, with the content of
    /// every column to the right, drawn with round borders and arranged to fit the terminal.
    pub fn table(&self, rates: &Vec<RowRates>, per_call: &String) -> (table: Table)
        requires
            rates@.len() == self.rows@.len(),
        ensures
            table_header(table) == header_view(),
            table_rows(table) == self.rows_view(rates@).push(
                divider_view(
                    column_widths(header_view(), self.rows_view(rates@)),
                    self.totals.cells_view(per_call@),
                ),
            ).push(self.totals.cells_view(per_call@)),
            forall|column: int| #[trigger]
                right_columns(table).contains(column) <==> 0 <= column < header_view().len(),
            table_style(table) == style_view(),
            is_dynamic(table),
    {
        let preset = borders_only();
        let modifier = round_corners();
        proof {
            reveal_strlit("││──╞══╡     ──┌┐└┘");
            reveal_strlit("               ╭╮╰╯");
            reveal_strlit("││──╞══╡     ──╭╮╰╯");
            assert(modified(preset@, modifier@) =~= style_view());
        }
        let mut table = table_new();
        table_load_preset(&mut table, preset);
        table_apply_modifier(&mut table, modifier);
        table_arrange_dynamically(&mut table);
        table_set_header(&mut table, header_texts());
        let mut column: usize = 0;
        while column < 6
            invariant
                column <= 6,
                table_header(table) == header_view(),
                table_rows(table).len() == 0,
                forall|i: int| #[trigger] right_columns(table).contains(i) <==> 0 <= i < column,
                table_style(table) == style_view(),
                is_dynamic(table),
            decreases 6 - column,
        {
            table_align_right(&mut table, column);
            column += 1;
        }
        let mut i: usize = 0;
        assert(table_rows(table) =~= self.rows_view(rates@).take(0));
        while i < self.rows.len()
            invariant
                i <= self.rows@.len() == rates@.len(),
                table_header(table) == header_view(),
                table_rows(table) == self.rows_view(rates@).take(i as int),
                forall|i: int| #[trigger] right_columns(table).contains(i) <==> 0 <= i < 6,
                table_style(table) == style_view(),
                is_dynamic(table),
            decreases self.rows.len() - i,
        {
            table_add_row(&mut table, self.rows[i].cells(&rates[i].0, &rates[i].1));
            assert(table_rows(table) =~= self.rows_view(rates@).take(i + 1));
            i += 1;
        }
        assert(table_rows(table) =~= self.rows_view(rates@));
        let totals = self.totals.cells(per_call);
        let widths = table_column_widths(&table);
        assert(args::texts(totals@).len() == totals@.len());
        let divider = divider_row(&widths, &totals);
        table_add_row(&mut table, divider);
        table_add_row(&mut table, totals);
        table
    }
}

/// Where nothing was counted, the totals are zero.
pub proof fn totals_of_nothing_are_zero(stats: Map<u32, SyscallStats>)
    requires
        forall|id: u32|
            id <= 334 || (424 <= id && id <= 461) ==> #[trigger] stats[id] == (SyscallStats {
                time: 0,
                pass: 0,
                fail: 0,
            }),
    ensures
        total_calls(stats) == 0,
        total_failed(stats) == 0,
        total_time(stats) == 0,
{
    sysno::lemma_sysnos();
    let ids = sysno::sysnos();
    assert forall|i: int| 0 <= i < ids.len() implies stats[#[trigger] ids[i]] == (SyscallStats {
        time: 0,
        pass: 0,
        fail: 0,
    }) by {
        assert(ids.contains(ids[i]));
        assert(sysno::is_sysno(ids[i]));
    }
    lemma_sum_zero(ids, |id: u32| calls_of(stats[id]));
    lemma_sum_zero(ids, |id: u32| stats[id].fail as int);
    lemma_sum_zero(ids, |id: u32| stats[id].time as int);
}

/// A sum of nothing but zeros is zero.
proof fn lemma_sum_zero(ids: Seq<u32>, amount: spec_fn(u32) -> int)
    requires
        forall|i: int| 0 <= i < ids.len() ==> amount(#[trigger] ids[i]) == 0,
    ensures
        sum_over(ids, amount) == 0,
    decreases ids.len(),
{
    if ids.len() > 0 {
        let rest = ids.drop_last();
        assert forall|i: int| 0 <= i < rest.len() implies amount(#[trigger] rest[i]) == 0 by {
            assert(rest[i] == ids[i]);
        }
        lemma_sum_zero(rest, amount);
        assert(amount(ids[ids.len() - 1]) == 0);
    }
}

/// Each call has its part in the totals: where what was counted of one call is replaced, they
/// change by the difference in its calls, its failures and its time.
pub proof fn each_call_has_its_part_in_the_totals(
    stats: Map<u32, SyscallStats>,
    id: u32,
    counted: SyscallStats,
)
    requires
        id <= 334 || (424 <= id && id <= 461),
    ensures
        ({
            let after = stats.insert(id, counted);
            &&& total_calls(after) - total_calls(stats) == counted.pass + counted.fail - (
            stats[id].pass + stats[id].fail)
            &&& total_failed(after) - total_failed(stats) == counted.fail - stats[id].fail
            &&& total_time(after) - total_time(stats) == counted.time - stats[id].time
        }),
{
    let after = stats.insert(id, counted);
    sysno::lemma_sysnos();
    assert(sysno::is_sysno(id));
    assert(sysno::sysnos().contains(id));
    lemma_sum_grows(
        sysno::sysnos(),
        |id: u32| calls_of(stats[id]),
        |id: u32| calls_of(after[id]),
        id,
    );
    lemma_sum_grows(
        sysno::sysnos(),
        |id: u32| stats[id].fail as int,
        |id: u32| after[id].fail as int,
        id,
    );
    lemma_sum_grows(
        sysno::sysnos(),
        |id: u32| stats[id].time as int,
        |id: u32| after[id].time as int,
        id,
    );
}

/// Anything can be summed up whose calls fit in 64 bits and whose time fits in a duration.
pub proof fn what_fits_can_be_summed_up(stats: Map<u32, SyscallStats>)
    ensures
        is_summarizable(stats) <==> total_calls(stats) <= 0xffff_ffff_ffff_ffff && total_time(stats)
            <= 18_446_744_073_709_551_615_999_999_999,
{
}

/// A summary has a row for a call if and only if the call was made, one row for each, and the row
/// holds the name, the time, the number of calls and the number of failures of that call. The
/// rows stand in the order of the names.
pub proof fn summary_shows_every_call_that_was_made(
    summary: Summary,
    stats: Map<u32, SyscallStats>,
    id: u32,
)
    requires
        summary.is_summary_of(stats),
    ensures
        forall|i: int|
            0 <= i < summary.rows@.len() ==> {
                let row = #[trigger] summary.rows@[i];
                let counted = stats[row.sysno];
                &&& row.sysno <= 334 || (424 <= row.sysno && row.sysno <= 461)
                &&& row.name@ == sysno::syscall_name(row.sysno)
                &&& row.time == counted.time
                &&& row.calls == counted.pass + counted.fail
                &&& row.calls > 0
                &&& row.fail == counted.fail
            },
        (id <= 334 || (424 <= id && id <= 461)) && stats[id].pass + stats[id].fail > 0 ==> exists|
            i: int,
        |
            0 <= i < summary.rows@.len() && (#[trigger] summary.rows@[i]).sysno == id,
        forall|i: int, j: int|
            0 <= i < j < summary.rows@.len() ==> {
                &&& (#[trigger] summary.rows@[i]).sysno != (#[trigger] summary.rows@[j]).sysno
                &&& order::precedes(
                    summary.rows@[i].name@,
                    summary.rows@[i].sysno,
                    summary.rows@[j].name@,
                    summary.rows@[j].sysno,
                )
            },
        summary.totals.time == total_time(stats),
        summary.totals.calls == total_calls(stats),
        summary.totals.failed == total_failed(stats),
{
    let rows = summary.rows@;
    let ids = row_ids(rows);
    assert forall|i: int| 0 <= i < rows.len() implies {
        let row = #[trigger] rows[i];
        let counted = stats[row.sysno];
        &&& row.sysno <= 334 || (424 <= row.sysno && row.sysno <= 461)
        &&& row.name@ == sysno::syscall_name(row.sysno)
        &&& row.time == counted.time
        &&& row.calls == counted.pass + counted.fail
        &&& row.calls > 0
        &&& row.fail == counted.fail
    } by {
        assert(rows[i].is_row_of(stats));
        assert(ids[i] == rows[i].sysno);
        assert(ids.contains(rows[i].sysno));
    }
    if sysno::is_sysno(id) && calls_of(stats[id]) > 0 {
        assert(ids.contains(id));
        let i = choose|i: int| 0 <= i < ids.len() && ids[i] == id;
        assert(rows[i].sysno == id);
    }
    assert forall|i: int, j: int| 0 <= i < j < rows.len() implies {
        &&& (#[trigger] rows[i]).sysno != (#[trigger] rows[j]).sysno
        &&& order::precedes(rows[i].name@, rows[i].sysno, rows[j].name@, rows[j].sysno)
    } by {
        assert(rows[i].precedes(rows[j]));
        assert(rows[i].is_row_of(stats));
        assert(rows[j].is_row_of(stats));
        order::precedes_irreflexive(rows[i].name@, rows[i].sysno);
    }
}

/// A time is shown in whole microseconds, cut off.
pub proof fn time_is_shown_in_whole_microseconds(nanos: u128, micros: nat)
    requires
        1000 * micros <= nanos < 1000 * (micros + 1),
    ensures
        micros_view(nanos) == text::digits(micros) + "µs"@,
{
    assert(nanos / 1000 == micros);
}

/// The cells of a row are its share of the time, its time, its time for each call, its calls, its
/// failures and its name; those of the totals are likewise.
pub proof fn cells_stand_under_their_headings(
    row: SummaryRow,
    totals: Totals,
    percent: Seq<char>,
    per_call: Seq<char>,
)
    ensures
        header_view() == seq![
            "% time"@,
            "time"@,
            "time/call"@,
            "calls"@,
            "errors"@,
            "syscall"@,
        ],
        row.cells_view(percent, per_call) == seq![
            percent,
            text::digits((row.time / 1000) as nat) + "µs"@,
            per_call,
            text::digits(row.calls as nat),
            text::digits(row.fail as nat),
            row.name@,
        ],
        totals.cells_view(per_call) == seq![
            "100%"@,
            text::digits((totals.time / 1000) as nat) + "µs"@,
            per_call,
            text::digits(totals.calls as nat),
            text::digits(totals.failed as nat),
            "total"@,
        ],
        style_view() == "││──╞══╡     ──╭╮╰╯"@,
{
}

/// The table has a row for each row of the summary, in the same order, with the rates that were
/// given for it.
pub proof fn rows_keep_their_places(summary: Summary, rates: Seq<RowRates>, i: int)
    requires
        0 <= i < summary.rows@.len(),
    ensures
        summary.rows_view(rates).len() == summary.rows@.len(),
        summary.rows_view(rates)[i] == summary.rows@[i].cells_view(rates[i].0@, rates[i].1@),
{
}

/// The line above the totals is made of hyphens alone, and in each column it is as long as the
/// widest cell above it is wide or as the total below it has bytes, whichever is more.
pub proof fn divider_covers_its_column(widths: Seq<u16>, totals: Seq<Seq<char>>, i: int)
    requires
        0 <= i < widths.len(),
    ensures
        ({
            let cell = divider_view(widths, totals)[i];
            let bytes = vstd::utf8::encode_utf8(totals[i]).len();
            &&& divider_view(widths, totals).len() == widths.len()
            &&& cell.len() >= widths[i] && cell.len() >= bytes
            &&& cell.len() == widths[i] || cell.len() == bytes
            &&& forall|k: int| 0 <= k < cell.len() ==> #[trigger] cell[k] == '-'
        }),
{
}

/// A modifier replaces the characters that it names, and keeps those in whose place it has a
/// space.
pub proof fn modifier_replaces_what_it_names(style: Seq<char>, modifier: Seq<char>, i: int)
    requires
        0 <= i < modifier.len(),
    ensures
        modified(style, modifier).len() == modifier.len(),
        modifier[i] != ' ' ==> modified(style, modifier)[i] == modifier[i],
        modifier[i] == ' ' ==> modified(style, modifier)[i] == style[i],
{
}

/// Rows are in order if each stands before those that follow it by name, and by number where the
/// names are the same.
pub proof fn rows_in_order_are_listed_by_name(rows: Seq<SummaryRow>, i: int, j: int)
    requires
        are_in_order(rows),
        0 <= i < j < rows.len(),
    ensures
        order::precedes(rows[i].name@, rows[i].sysno, rows[j].name@, rows[j].sysno),
        row_ids(rows).len() == rows.len(),
        row_ids(rows)[i] == rows[i].sysno,
{
    assert(rows[i].precedes(rows[j]));
}

} // verus!
