//! Performance counters. The registry is an explicit value handed to the
//! recording functions, so there is no hidden global state.
use vstd::prelude::*;

verus! {

/// Performance metrics of the application.
#[derive(Debug, Clone, PartialEq)]
pub struct PerformanceMetrics {
    pub startup_time_ms: Option<u64>,
    pub metadata_cache_hits: u64,
    pub metadata_cache_misses: u64,
    pub playlist_operations: u64,
    pub memory_usage_bytes: Option<u64>,
    pub peak_memory_bytes: Option<u64>,
}

impl PerformanceMetrics {
    /// Fresh metrics: no startup time or memory readings, all counters at
    /// zero.
    pub fn new() -> (r: Self)
        ensures
            r.startup_time_ms is None,
            r.metadata_cache_hits == 0,
            r.metadata_cache_misses == 0,
            r.playlist_operations == 0,
            r.memory_usage_bytes is None,
            r.peak_memory_bytes is None,
    {
        PerformanceMetrics {
            startup_time_ms: None,
            metadata_cache_hits: 0,
            metadata_cache_misses: 0,
            playlist_operations: 0,
            memory_usage_bytes: None,
            peak_memory_bytes: None,
        }
    }
}

/// The holder of the metrics, explicitly owned by the caller; empty until
/// tracking is initialized.
#[derive(Debug)]
pub struct MetricsRegistry {
    pub metrics: Option<PerformanceMetrics>,
}

impl MetricsRegistry {
    /// A registry with tracking not yet initialized.
    pub fn new() -> (r: Self)
        ensures
            r.metrics is None,
    {
        MetricsRegistry { metrics: None }
    }
}

/// Initialize performance tracking with fresh metrics.
pub fn init_performance_tracking(registry: &mut MetricsRegistry)
    ensures
        final(registry).metrics matches Some(m) && m == (PerformanceMetrics {
            startup_time_ms: None,
            metadata_cache_hits: 0,
            metadata_cache_misses: 0,
            playlist_operations: 0,
            memory_usage_bytes: None,
            peak_memory_bytes: None,
        }),
{
    registry.metrics = Some(PerformanceMetrics::new());
}

/// Record a metadata cache hit; counts nothing before initialization, and
/// saturates rather than wrap.
pub fn record_cache_hit(registry: &mut MetricsRegistry)
    ensures
        old(registry).metrics is None ==> final(registry).metrics is None,
        old(registry).metrics matches Some(m) ==> (final(registry).metrics matches Some(m2) && m2
            == PerformanceMetrics {
            metadata_cache_hits: if m.metadata_cache_hits == u64::MAX {
                u64::MAX
            } else {
                (m.metadata_cache_hits + 1) as u64
            },
            ..m
        }),
{
    match &mut registry.metrics {
        Some(m) => {
            m.metadata_cache_hits = m.metadata_cache_hits.saturating_add(1);
        },
        None => {},
    }
}

/// Record a metadata cache miss; counts nothing before initialization, and
/// saturates rather than wrap.
pub fn record_cache_miss(registry: &mut MetricsRegistry)
    ensures
        old(registry).metrics is None ==> final(registry).metrics is None,
        old(registry).metrics matches Some(m) ==> (final(registry).metrics matches Some(m2) && m2
            == PerformanceMetrics {
            metadata_cache_misses: if m.metadata_cache_misses == u64::MAX {
                u64::MAX
            } else {
                (m.metadata_cache_misses + 1) as u64
            },
            ..m
        }),
{
    match &mut registry.metrics {
        Some(m) => {
            m.metadata_cache_misses = m.metadata_cache_misses.saturating_add(1);
        },
        None => {},
    }
}

/// Record a playlist operation; counts nothing before initialization, and
/// saturates rather than wrap.
pub fn record_playlist_operation(registry: &mut MetricsRegistry)
    ensures
        old(registry).metrics is None ==> final(registry).metrics is None,
        old(registry).metrics matches Some(m) ==> (final(registry).metrics matches Some(m2) && m2
            == PerformanceMetrics {
            playlist_operations: if m.playlist_operations == u64::MAX {
                u64::MAX
            } else {
                (m.playlist_operations + 1) as u64
            },
            ..m
        }),
{
    match &mut registry.metrics {
        Some(m) => {
            m.playlist_operations = m.playlist_operations.saturating_add(1);
        },
        None => {},
    }
}

/// Record the startup time once measured.
pub fn record_startup_time(registry: &mut MetricsRegistry, duration_ms: u64)
    ensures
        old(registry).metrics is None ==> final(registry).metrics is None,
        old(registry).metrics matches Some(m) ==> (final(registry).metrics matches Some(m2) && m2
            == PerformanceMetrics { startup_time_ms: Some(duration_ms), ..m }),
{
    match &mut registry.metrics {
        Some(m) => {
            m.startup_time_ms = Some(duration_ms);
        },
        None => {},
    }
}

/// The current metrics, if tracking was initialized.
pub fn get_metrics(registry: &MetricsRegistry) -> (r: Option<PerformanceMetrics>)
    ensures
        r == registry.metrics,
{
    match &registry.metrics {
        Some(m) => Some(
            PerformanceMetrics {
                startup_time_ms: m.startup_time_ms,
                metadata_cache_hits: m.metadata_cache_hits,
                metadata_cache_misses: m.metadata_cache_misses,
                playlist_operations: m.playlist_operations,
                memory_usage_bytes: m.memory_usage_bytes,
                peak_memory_bytes: m.peak_memory_bytes,
            },
        ),
        None => None,
    }
}

} // verus!
