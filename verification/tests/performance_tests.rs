use milk_lib::performance::{
    get_metrics, init_performance_tracking, record_cache_hit, record_cache_miss,
    record_playlist_operation, record_startup_time, MetricsRegistry,
};

#[test]
fn test_metrics_initialization() {
    let mut registry = MetricsRegistry::new();
    init_performance_tracking(&mut registry);
    let metrics = get_metrics(&registry);
    assert!(metrics.is_some());
}

#[test]
fn test_performance_metrics_initialization() {
    let mut registry = MetricsRegistry::new();
    init_performance_tracking(&mut registry);
    let metrics = get_metrics(&registry);
    assert!(metrics.is_some());
}

#[test]
fn test_cache_counters() {
    let mut registry = MetricsRegistry::new();
    init_performance_tracking(&mut registry);

    record_cache_hit(&mut registry);
    record_cache_hit(&mut registry);
    record_cache_miss(&mut registry);

    let metrics = get_metrics(&registry).unwrap();
    assert_eq!(metrics.metadata_cache_hits, 2);
    assert_eq!(metrics.metadata_cache_misses, 1);
}

#[test]
fn test_startup_time_recording() {
    let mut registry = MetricsRegistry::new();
    init_performance_tracking(&mut registry);

    record_startup_time(&mut registry, 1500);

    let metrics = get_metrics(&registry).unwrap();
    assert_eq!(metrics.startup_time_ms, Some(1500));
}

#[test]
fn test_playlist_operations_tracking() {
    let mut registry = MetricsRegistry::new();
    init_performance_tracking(&mut registry);

    record_playlist_operation(&mut registry);
    record_playlist_operation(&mut registry);
    record_playlist_operation(&mut registry);

    let metrics = get_metrics(&registry).unwrap();
    assert_eq!(metrics.playlist_operations, 3);
}

#[test]
fn test_recording_before_initialization_counts_nothing() {
    let mut registry = MetricsRegistry::new();
    record_cache_hit(&mut registry);
    record_playlist_operation(&mut registry);
    assert!(get_metrics(&registry).is_none());
}
