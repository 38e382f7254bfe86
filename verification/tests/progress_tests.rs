//! Tests of the progress-reporting cadence and snapshot content.

use squishy::pipeline::RunCounters;
use squishy::progress::{progress_action, snapshot, ProgressAction};

fn counters(total_seen: usize, total_filtered: usize) -> RunCounters {
    RunCounters { total_seen, total_filtered }
}

#[test]
fn disabled_reporter_stays_quiet() {
    assert_eq!(progress_action(false, &counters(256, 0)), ProgressAction::Quiet);
    assert_eq!(progress_action(false, &counters(65536, 0)), ProgressAction::Quiet);
}

#[test]
fn off_cadence_records_are_quiet() {
    assert_eq!(progress_action(true, &counters(1, 0)), ProgressAction::Quiet);
    assert_eq!(progress_action(true, &counters(255, 0)), ProgressAction::Quiet);
    assert_eq!(progress_action(true, &counters(257, 0)), ProgressAction::Quiet);
}

#[test]
fn every_256th_record_ticks() {
    assert_eq!(progress_action(true, &counters(256, 0)), ProgressAction::Tick);
    assert_eq!(progress_action(true, &counters(512, 0)), ProgressAction::Tick);
    assert_eq!(progress_action(true, &counters(65536 + 256, 0)), ProgressAction::Tick);
}

#[test]
fn every_65536th_record_refreshes_the_message() {
    assert_eq!(progress_action(true, &counters(65536, 0)), ProgressAction::Refresh);
    assert_eq!(progress_action(true, &counters(2 * 65536, 0)), ProgressAction::Refresh);
}

#[test]
fn snapshot_copies_the_counters_verbatim() {
    let s = snapshot(&counters(65536, 123));
    assert_eq!(s.total_seen, 65536);
    assert_eq!(s.total_filtered, 123);
}
