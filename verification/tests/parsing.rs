use insomniad::time::MonotonicTimeMS;
use insomniad::wakeup_sources::{most_recent_event, parse_wakeup_source, TableError, WakeupSource};

const HEADER: &str = "name\t\tactive_count\tevent_count\twakeup_count\texpire_count\tactive_since\ttotal_time\tmax_time\tlast_change\tprevent_suspend_time";

#[test]
fn test_parse_wakeup_source() {
    let ws = parse_wakeup_source("source\t0\t0\t0\t0\t0\t0\t0\t500\t0\n").unwrap();
    assert_eq!(
        ws,
        WakeupSource {
            name: "source".to_string(),
            active_count: 0u64.into(),
            event_count: 0u64.into(),
            wakeup_count: 0u64.into(),
            expire_count: 0u64.into(),
            active_since: 0u64.into(),
            total_time: 0u64.into(),
            max_time: 0u64.into(),
            last_change: 500u64.into(),
            prevent_suspend_time: 0u64.into(),
        }
    );
}

#[test]
fn test_most_recent() {
    let mut table = String::new();
    table.push_str(HEADER);
    table.push('\n');
    table.push_str("bar\t\t1\t1\t0\t0\t0\t10\t5\t1000\t0\n");
    table.push_str("foo\t\t2\t2\t0\t0\t0\t20\t7\t2229000\t0\n");
    table.push_str("baz\t\t1\t1\t0\t0\t0\t10\t5\t900\t0\n");
    let ws = most_recent_event(&table).unwrap().unwrap();
    assert_eq!(&ws.name, "foo");
    assert_eq!(ws.last_change, 2229000u64.into());
}

#[test]
fn parse_keeps_literal_field_values() {
    let ws = parse_wakeup_source("kbd\t\t3\t17\t2\t1\t0\t40\t25\t7777\t6\n").unwrap();
    assert_eq!(&ws.name, "kbd");
    assert_eq!(ws.active_count, 3);
    assert_eq!(ws.event_count, 17);
    assert_eq!(ws.wakeup_count, 2);
    assert_eq!(ws.expire_count, 1);
    assert_eq!(ws.active_since, MonotonicTimeMS(0));
    assert_eq!(ws.total_time, MonotonicTimeMS(40));
    assert_eq!(ws.max_time, MonotonicTimeMS(25));
    assert_eq!(ws.last_change, MonotonicTimeMS(7777));
    assert_eq!(ws.prevent_suspend_time, MonotonicTimeMS(6));
}

#[test]
fn parse_rejects_missing_field() {
    assert!(parse_wakeup_source("source\t0\t0\t0\t0\t0\t0\t0\t500\n").is_none());
}

#[test]
fn parse_rejects_non_numeric_field() {
    assert!(parse_wakeup_source("source\t0\t0\tx\t0\t0\t0\t0\t500\t0\n").is_none());
}

#[test]
fn parse_rejects_overflowing_field() {
    assert!(parse_wakeup_source("source\t0\t0\t99999999999999999999\t0\t0\t0\t0\t500\t0\n")
        .is_none());
}

#[test]
fn parse_ignores_extra_fields() {
    let ws = parse_wakeup_source("source\t1\t2\t3\t4\t5\t6\t7\t8\t9\t10\t11\n").unwrap();
    assert_eq!(ws.prevent_suspend_time, MonotonicTimeMS(9));
}

#[test]
fn most_recent_of_header_only_is_none() {
    let mut table = String::new();
    table.push_str(HEADER);
    table.push('\n');
    assert_eq!(most_recent_event(&table), Ok(None));
}

#[test]
fn most_recent_picks_maximal_last_change() {
    let mut table = String::new();
    table.push_str(HEADER);
    table.push('\n');
    table.push_str("a\t\t0\t0\t0\t0\t0\t0\t0\t5\t0\n");
    table.push_str("b\t\t0\t0\t0\t0\t0\t0\t0\t50\t0\n");
    table.push_str("c\t\t0\t0\t0\t0\t0\t0\t0\t7\t0\n");
    let ws = most_recent_event(&table).unwrap().unwrap();
    assert_eq!(&ws.name, "b");
    assert_eq!(ws.last_change, MonotonicTimeMS(50));
}

#[test]
fn most_recent_tie_returns_a_maximal_row() {
    let mut table = String::new();
    table.push_str(HEADER);
    table.push('\n');
    table.push_str("a\t\t0\t0\t0\t0\t0\t0\t0\t50\t0\n");
    table.push_str("b\t\t0\t0\t0\t0\t0\t0\t0\t50\t0\n");
    let ws = most_recent_event(&table).unwrap().unwrap();
    assert_eq!(ws.last_change, MonotonicTimeMS(50));
    assert!(ws.name == "a" || ws.name == "b");
}

#[test]
fn wrong_header_is_fatal_not_partial() {
    let mut table = String::new();
    table.push_str("name\tactive_count\n");
    table.push_str("a\t\t0\t0\t0\t0\t0\t0\t0\t50\t0\n");
    assert_eq!(most_recent_event(&table), Err(TableError::HeaderMismatch));
}

#[test]
fn empty_table_text_is_fatal() {
    assert_eq!(most_recent_event(""), Err(TableError::MissingHeader));
}

#[test]
fn malformed_row_is_fatal() {
    let mut table = String::new();
    table.push_str(HEADER);
    table.push('\n');
    table.push_str("a\t\t0\t0\t0\t0\t0\t0\t0\t50\t0\n");
    table.push_str("broken row without tabs\n");
    assert_eq!(most_recent_event(&table), Err(TableError::MalformedRow));
}
