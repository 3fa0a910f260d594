use pipeline_bench::telemetry::{bytes_to_mb, MemoryCounters, MemorySnapshot, BYTES_PER_MB};

fn counters() -> MemoryCounters {
    MemoryCounters {
        working_set_bytes: 150 * BYTES_PER_MB + 12345,
        private_usage_bytes: 80 * BYTES_PER_MB,
        pagefile_usage_bytes: BYTES_PER_MB - 1,
        peak_working_set_bytes: 300 * BYTES_PER_MB + 1,
    }
}

#[test]
fn bytes_to_mb_rounds_down() {
    assert_eq!(bytes_to_mb(0), 0);
    assert_eq!(bytes_to_mb(1048575), 0);
    assert_eq!(bytes_to_mb(1048576), 1);
    assert_eq!(bytes_to_mb(5 * 1048576 + 10), 5);
    assert_eq!(bytes_to_mb(u64::MAX), 17592186044415);
}

#[test]
fn failed_query_gives_all_zero_snapshot() {
    let s = MemorySnapshot::from_query(None);
    assert_eq!(s, MemorySnapshot::unavailable());
    assert_eq!(s.working_set_mb, 0);
    assert_eq!(s.private_usage_mb, 0);
    assert_eq!(s.pagefile_usage_mb, 0);
    assert_eq!(s.peak_working_set_mb, 0);
    assert!(s.is_unavailable());
}

#[test]
fn successful_query_converts_every_field() {
    let s = MemorySnapshot::from_query(Some(counters()));
    assert_eq!(s.working_set_mb, 150);
    assert_eq!(s.private_usage_mb, 80);
    assert_eq!(s.pagefile_usage_mb, 0);
    assert_eq!(s.peak_working_set_mb, 300);
    assert!(!s.is_unavailable());
    assert_eq!(s, MemorySnapshot::from_counters(counters()));
}

#[test]
fn quick_view_keeps_two_counters() {
    let q = MemorySnapshot::from_counters(counters()).quick();
    assert_eq!(q.working_set_mb, 150);
    assert_eq!(q.private_usage_mb, 80);
}
