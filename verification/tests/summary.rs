use procactivity::args::Args;
use procactivity::protocol::{Action, Event, Timestamp, WaitStatus};
use procactivity::summary::{divider_row, insert_row, Summary, SummaryRow, Totals};
use procactivity::syscall_info::{Registers, SyscallArgs};
use procactivity::sysno;
use procactivity::Tracer;

fn row(number: u32, name: &str) -> SummaryRow {
    SummaryRow { sysno: number, name: name.to_string(), time: 0, calls: 1, fail: 0 }
}

fn strings(words: &[&str]) -> Vec<String> {
    words.iter().map(|word| word.to_string()).collect()
}

fn in_call(number: u32, ret: u64) -> Event {
    let orig_rax = number as u64;
    Event::Registers(Some(Registers {
        orig_rax,
        rax: ret,
        rdi: 0,
        rsi: 0,
        rdx: 0,
        r10: 0,
        r8: 0,
        r9: 0,
    }))
}

/// A tracer that has seen calls, each with its outcome and the microseconds that it took.
fn traced(calls: &[(u32, u64, u32)]) -> Tracer<Vec<u8>> {
    let mut tracer = Tracer::new(1, Args::default(), Vec::new()).unwrap();
    let mut run = tracer.run_tracer();
    let stop = WaitStatus::PtraceSyscall { pid: 1 };
    for (i, (number, ret, micros)) in calls.iter().enumerate() {
        let start = Timestamp { secs: i as i64, nanos: 0 };
        let end = Timestamp { secs: i as i64, nanos: micros * 1000 };
        let mut script = vec![
            Event::Status(stop),
            Event::Message { message: 1, now: start },
            in_call(*number, 0),
            Event::Done,
            Event::Status(stop),
            Event::Message { message: 2, now: end },
            in_call(*number, *ret),
            Event::Args(SyscallArgs(Vec::new())),
            Event::Done,
        ];
        if i == 0 {
            script.insert(1, Event::Done);
        }
        let last = script.len() - 1;
        for (k, event) in script.into_iter().enumerate() {
            assert!(tracer.accepts(&run, &event));
            let action = tracer.step(&mut run, event);
            assert!(k < last || action == Action::Wait);
        }
    }
    tracer
}

#[test]
fn summary_counts_calls_by_name() {
    let failed = u64::MAX;
    let tracer = traced(&[
        (sysno::WRITE, 5, 30),
        (sysno::READ, 5, 10),
        (sysno::WRITE, failed, 2),
        (sysno::FSTAT, 0, 1),
        (sysno::READ, 0x9000, 3),
    ]);
    assert!(tracer.can_summarize());
    let summary = tracer.report_summary();
    let rows: Vec<_> = summary
        .rows
        .iter()
        .map(|row| (row.sysno, row.name.as_str(), row.time, row.calls, row.fail))
        .collect();
    assert_eq!(
        rows,
        vec![
            (sysno::FSTAT, "fstat", 1000, 1, 0),
            (sysno::READ, "read", 13_000, 2, 0),
            (sysno::WRITE, "write", 32_000, 2, 1),
        ],
    );
    assert_eq!(summary.totals, Totals { time: 46_000, calls: 5, failed: 1 });
    assert_eq!(tracer.records().len(), 5);
}

#[test]
fn summary_of_nothing_has_no_rows() {
    let summary = traced(&[]).report_summary();
    assert!(summary.rows.is_empty());
    assert_eq!(summary.totals, Totals { time: 0, calls: 0, failed: 0 });
}

#[test]
fn rows_are_kept_in_order() {
    let mut rows = Vec::new();
    for (number, name) in [(1, "write"), (0, "read"), (257, "openat"), (2, "open")] {
        insert_row(&mut rows, row(number, name));
    }
    insert_row(&mut rows, row(7, "open"));
    let order: Vec<u32> = rows.iter().map(|row| row.sysno).collect();
    assert_eq!(order, vec![2, 7, 257, 0, 1]);
}

#[test]
fn cells_of_rows_and_totals() {
    let row = SummaryRow { time: 1999, calls: 12, fail: 3, ..row(1, "write") };
    assert_eq!(
        row.cells(&"4.5%".to_string(), &"166.6ns".to_string()),
        strings(&["4.5%", "1µs", "166.6ns", "12", "3", "write"]),
    );
    let totals = Totals { time: 5_000_000, calls: 20, failed: 0 };
    assert_eq!(
        totals.cells(&"250000.0ns".to_string()),
        strings(&["100%", "5000µs", "250000.0ns", "20", "0", "total"]),
    );
}

#[test]
fn divider_is_as_wide_as_the_widest_cell() {
    let totals = strings(&["100%", "7µs", "12.0ns"]);
    assert_eq!(divider_row(&vec![6, 2, 4], &totals), strings(&["------", "----", "------"]));
    assert!(divider_row(&vec![], &totals).is_empty());
}

#[test]
fn summary_is_laid_out_as_a_table() {
    let summary = Summary {
        rows: vec![SummaryRow { time: 13_000, calls: 2, fail: 0, ..row(0, "read") }],
        totals: Totals { time: 13_000, calls: 2, failed: 0 },
    };
    let rates = vec![("100.0%".to_string(), "6500.0ns".to_string())];
    let mut table = summary.table(&rates, &"6500.0ns".to_string());
    assert_eq!(table.current_style_as_preset(), "││──╞══╡     ──╭╮╰╯");
    assert!(matches!(table.content_arrangement(), comfy_table::ContentArrangement::Dynamic));
    let header: Vec<String> = table.header().unwrap().cell_iter().map(|c| c.content()).collect();
    assert_eq!(header, strings(&["% time", "time", "time/call", "calls", "errors", "syscall"]));
    let rows: Vec<Vec<String>> = table
        .row_iter()
        .map(|row| row.cell_iter().map(|cell| cell.content()).collect())
        .collect();
    assert_eq!(
        rows,
        vec![
            strings(&["100.0%", "13µs", "6500.0ns", "2", "0", "read"]),
            strings(&["------", "-----", "---------", "-----", "------", "-------"]),
            strings(&["100%", "13µs", "6500.0ns", "2", "0", "total"]),
        ],
    );
    let text = table.to_string();
    assert!(text.contains("   100% "));
    assert!(text.contains("      2 "));
    assert!(text.contains("    read "));
    assert!(text.starts_with('╭'));
    assert!(text.ends_with('╯'));
}
