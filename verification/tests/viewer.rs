use subquery_cli::logs::LogWatcher;
use subquery_cli::status::format_hundredths;
use subquery_cli::status::render_sync_line;
use subquery_cli::status::sync_percent_hundredths;
use subquery_cli::subquery::types::LogResult;
use subquery_cli::subquery::types::SyncStatus;

fn entry(ts: i64, message: &str) -> LogResult {
    LogResult {
        level: "info".to_string(),
        message: message.to_string(),
        category: "indexer".to_string(),
        timestamp: ts,
    }
}

#[test]
fn sync_percent_quarter() {
    let h = sync_percent_hundredths(50, 200);
    assert_eq!(h, 2500);
    assert_eq!(format_hundredths(h), "25.00");
}

#[test]
fn sync_percent_keeps_two_decimals() {
    assert_eq!(format_hundredths(sync_percent_hundredths(1, 3)), "33.33");
    assert_eq!(format_hundredths(sync_percent_hundredths(200, 200)), "100.00");
    assert_eq!(format_hundredths(sync_percent_hundredths(0, 7)), "0.00");
    assert_eq!(format_hundredths(sync_percent_hundredths(1, 16)), "6.25");
}

#[test]
fn sync_percent_rounds_to_nearest() {
    assert_eq!(format_hundredths(sync_percent_hundredths(2, 3)), "66.67");
    assert_eq!(format_hundredths(sync_percent_hundredths(1, 7)), "14.29");
    assert_eq!(format_hundredths(sync_percent_hundredths(2, 7)), "28.57");
}

#[test]
fn sync_percent_rounds_halves_to_even() {
    assert_eq!(format_hundredths(sync_percent_hundredths(1, 800)), "0.12");
    assert_eq!(format_hundredths(sync_percent_hundredths(3, 800)), "0.38");
}

#[test]
fn sync_line_single_shot() {
    let status = SyncStatus { processing_block: 50, target_block: 200, total_entities: 1234 };
    let line = render_sync_line(&status, false, 1);
    assert_eq!(
        line,
        "total_entities: 1234 target_block: 200 processing_block: 50 percent: 25.00% "
    );
}

#[test]
fn sync_line_rolling_counts_iterations() {
    let status = SyncStatus { processing_block: 50, target_block: 200, total_entities: 1234 };
    let line = render_sync_line(&status, true, 3);
    assert_eq!(
        line,
        "total_entities: 1234 target_block: 200 processing_block: 50 percent: 25.00% [3] "
    );
}

#[test]
fn same_entry_across_two_polls_prints_once() {
    let mut watcher = LogWatcher::new();
    let batch = vec![entry(1000, "started")];
    let first = watcher.poll(&batch);
    assert_eq!(first.len(), 1);
    assert_eq!(first[0].message, "started");
    let second = watcher.poll(&batch);
    assert!(second.is_empty());
}

#[test]
fn three_records_with_overlap() {
    let mut watcher = LogWatcher::new();
    let first = watcher.poll(&vec![entry(1, "a"), entry(2, "b")]);
    assert_eq!(first.len(), 2);
    let second = watcher.poll(&vec![entry(2, "b"), entry(3, "c")]);
    assert_eq!(second.len(), 1);
    assert_eq!(second[0].message, "c");
    assert_eq!(second[0].timestamp, 3);
}

#[test]
fn duplicate_timestamp_within_one_batch_prints_once() {
    let mut watcher = LogWatcher::new();
    let out = watcher.poll(&vec![entry(5, "x"), entry(5, "x again"), entry(6, "y")]);
    assert_eq!(out.len(), 2);
    assert_eq!(out[0].message, "x");
    assert_eq!(out[1].message, "y");
}

#[test]
fn order_of_fresh_entries_is_kept() {
    let mut watcher = LogWatcher::new();
    let out = watcher.poll(&vec![entry(3, "c"), entry(1, "a"), entry(2, "b")]);
    let messages: Vec<&str> = out.iter().map(|e| e.message.as_str()).collect();
    assert_eq!(messages, vec!["c", "a", "b"]);
}
