use vstd::prelude::*;

verus! {

/// Bytes in one mebibyte: the unit in which snapshots report memory.
pub const BYTES_PER_MB: u64 = 1048576;

/// The raw memory-counters record of the current process, in bytes, as the
/// host reports it in one query.
#[derive(Clone, Copy, Debug, PartialEq, Eq, Structural)]
pub struct MemoryCounters {
    pub working_set_bytes: u64,
    pub private_usage_bytes: u64,
    pub pagefile_usage_bytes: u64,
    pub peak_working_set_bytes: u64,
}

/// A point-in-time reading of process memory, in whole mebibytes.
/// All fields zero means that telemetry was unavailable.
#[derive(Clone, Copy, Debug, PartialEq, Eq, Structural)]
pub struct MemorySnapshot {
    pub working_set_mb: u64,
    pub private_usage_mb: u64,
    pub pagefile_usage_mb: u64,
    pub peak_working_set_mb: u64,
}

/// The reduced two-counter view of a snapshot.
#[derive(Clone, Copy, Debug, PartialEq, Eq, Structural)]
pub struct QuickMemory {
    pub working_set_mb: u64,
    pub private_usage_mb: u64,
}

/// Whole mebibytes in a byte count, rounded down.
pub open spec fn mb_of(bytes: u64) -> u64 {
    (bytes / BYTES_PER_MB) as u64
}

/// The all-zero snapshot that stands for "telemetry unavailable".
pub open spec fn zero_snapshot() -> MemorySnapshot {
    MemorySnapshot { working_set_mb: 0, private_usage_mb: 0, pagefile_usage_mb: 0, peak_working_set_mb: 0 }
}

/// The snapshot that one counters record gives: each field converted on its own.
pub open spec fn snapshot_of_counters(c: MemoryCounters) -> MemorySnapshot {
    MemorySnapshot {
        working_set_mb: mb_of(c.working_set_bytes),
        private_usage_mb: mb_of(c.private_usage_bytes),
        pagefile_usage_mb: mb_of(c.pagefile_usage_bytes),
        peak_working_set_mb: mb_of(c.peak_working_set_bytes),
    }
}

/// The snapshot that the outcome of one memory query gives: a failed query
/// (`None`) gives the all-zero snapshot.
pub open spec fn snapshot_of(query: Option<MemoryCounters>) -> MemorySnapshot {
    match query {
        Some(c) => snapshot_of_counters(c),
        None => zero_snapshot(),
    }
}

/// Converts a byte count to whole mebibytes, rounding down.
pub fn bytes_to_mb(bytes: u64) -> (r: u64)
    ensures
        r == mb_of(bytes),
        r as int * BYTES_PER_MB <= bytes < (r as int + 1) * BYTES_PER_MB,
{
    let r = bytes / 1024 / 1024;
    assert(r == bytes / BYTES_PER_MB) by (nonlinear_arith)
        requires
            r == bytes / 1024 / 1024,
    {
        vstd::arithmetic::div_mod::lemma_div_denominator(bytes as int, 1024, 1024);
    }
    assert(r as int * BYTES_PER_MB <= bytes < (r as int + 1) * BYTES_PER_MB) by (nonlinear_arith)
        requires
            r == bytes / BYTES_PER_MB,
    {}
    r
}

impl MemorySnapshot {
    /// The snapshot that stands for a failed memory query.
    pub fn unavailable() -> (r: MemorySnapshot)
        ensures
            r == zero_snapshot(),
    {
        MemorySnapshot { working_set_mb: 0, private_usage_mb: 0, pagefile_usage_mb: 0, peak_working_set_mb: 0 }
    }

    /// Converts one counters record, every field from that same record.
    pub fn from_counters(c: MemoryCounters) -> (r: MemorySnapshot)
        ensures
            r == snapshot_of_counters(c),
    {
        MemorySnapshot {
            working_set_mb: bytes_to_mb(c.working_set_bytes),
            private_usage_mb: bytes_to_mb(c.private_usage_bytes),
            pagefile_usage_mb: bytes_to_mb(c.pagefile_usage_bytes),
            peak_working_set_mb: bytes_to_mb(c.peak_working_set_bytes),
        }
    }

    /// Builds the snapshot for the outcome of one memory query; never fails.
    pub fn from_query(query: Option<MemoryCounters>) -> (r: MemorySnapshot)
        ensures
            r == snapshot_of(query),
    {
        match query {
            Some(c) => MemorySnapshot::from_counters(c),
            None => MemorySnapshot::unavailable(),
        }
    }

    /// Whether this snapshot is the "telemetry unavailable" sentinel.
    pub fn is_unavailable(&self) -> (r: bool)
        ensures
            r == (*self == zero_snapshot()),
    {
        self.working_set_mb == 0 && self.private_usage_mb == 0 && self.pagefile_usage_mb == 0
            && self.peak_working_set_mb == 0
    }

    /// The two-counter view, taken from this one snapshot.
    pub fn quick(&self) -> (r: QuickMemory)
        ensures
            r.working_set_mb == self.working_set_mb,
            r.private_usage_mb == self.private_usage_mb,
    {
        QuickMemory { working_set_mb: self.working_set_mb, private_usage_mb: self.private_usage_mb }
    }
}

/// A snapshot is either all zero, when the query failed, or every one of its
/// fields comes from the same successful record: never a partial record.
pub proof fn law_snapshot_whole_or_zero(query: Option<MemoryCounters>)
    ensures
        query is None ==> snapshot_of(query) == zero_snapshot(),
        query is Some ==> snapshot_of(query) == snapshot_of_counters(query->Some_0),
        snapshot_of(query).working_set_mb >= 0,
        snapshot_of(query).private_usage_mb >= 0,
        snapshot_of(query).pagefile_usage_mb >= 0,
        snapshot_of(query).peak_working_set_mb >= 0,
{
}

} // verus!
