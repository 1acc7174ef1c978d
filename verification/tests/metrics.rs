use sovereign_core::metrics::MetricSample;
use sovereign_core::subsystem::SubsystemId;
use sovereign_core::{Config, MetricsCollector};

fn collector(capacity: usize) -> MetricsCollector {
    MetricsCollector::new(&Config { metrics_capacity: capacity, ..Config::default() }).unwrap()
}

fn sample(subsystem_id: SubsystemId, value: u64, timestamp: u64) -> MetricSample {
    MetricSample { subsystem_id, name: 1, value, timestamp }
}

fn core_sample(value: u64, timestamp: u64) -> MetricSample {
    sample(SubsystemId::Core, value, timestamp)
}

#[test]
fn new_collector_is_empty() {
    let metrics = collector(4);
    assert_eq!(metrics.len(), 0);
    assert_eq!(metrics.capacity(), 4);
    assert_eq!(metrics.evicted(), 0);
    assert!(!metrics.is_started());
    assert_eq!(metrics.window(SubsystemId::Core, u64::MAX, u64::MAX), Vec::new());
}

#[test]
fn collector_rejects_an_invalid_configuration() {
    let config = Config { metrics_capacity: 0, ..Config::default() };
    assert!(MetricsCollector::new(&config).is_err());
}

#[test]
fn window_keeps_recording_order() {
    let mut metrics = collector(8);
    metrics.record(core_sample(30, 103));
    metrics.record(core_sample(10, 101));
    metrics.record(core_sample(20, 102));
    assert_eq!(
        metrics.window(SubsystemId::Core, 200, 200),
        vec![core_sample(30, 103), core_sample(10, 101), core_sample(20, 102)]
    );
}

#[test]
fn window_takes_one_subsystem_only() {
    let mut metrics = collector(8);
    metrics.record(core_sample(1, 10));
    metrics.record(sample(SubsystemId::BatteryOptimizer, 2, 11));
    metrics.record(sample(SubsystemId::PerformanceMonitor, 3, 12));
    metrics.record(sample(SubsystemId::Metrics, 4, 13));
    metrics.record(core_sample(5, 14));
    assert_eq!(
        metrics.window(SubsystemId::Core, 100, 100),
        vec![core_sample(1, 10), core_sample(5, 14)]
    );
    assert_eq!(
        metrics.window(SubsystemId::Metrics, 100, 100),
        vec![sample(SubsystemId::Metrics, 4, 13)]
    );
}

#[test]
fn window_never_leaks_the_future() {
    let mut metrics = collector(8);
    metrics.record(core_sample(1, 999));
    metrics.record(core_sample(2, 1000));
    metrics.record(core_sample(3, 1001));
    metrics.record(core_sample(4, 5000));
    let snapshot = metrics.window(SubsystemId::Core, 1000, 500);
    assert_eq!(snapshot, vec![core_sample(1, 999), core_sample(2, 1000)]);
    assert!(snapshot.iter().all(|sample| sample.timestamp <= 1000));
}

#[test]
fn window_is_open_at_its_start_and_closed_at_its_end() {
    let mut metrics = collector(8);
    metrics.record(core_sample(1, 500));
    metrics.record(core_sample(2, 501));
    metrics.record(core_sample(3, 1000));
    assert_eq!(
        metrics.window(SubsystemId::Core, 1000, 500),
        vec![core_sample(2, 501), core_sample(3, 1000)]
    );
    assert_eq!(metrics.window(SubsystemId::Core, 1000, 0), Vec::new());
    assert_eq!(metrics.window(SubsystemId::Core, 1000, 1), vec![core_sample(3, 1000)]);
}

#[test]
fn window_longer_than_the_clock_reaches_back_to_the_start() {
    let mut metrics = collector(8);
    metrics.record(core_sample(1, 0));
    metrics.record(core_sample(2, 3));
    assert_eq!(
        metrics.window(SubsystemId::Core, 5, 1000),
        vec![core_sample(1, 0), core_sample(2, 3)]
    );
    assert_eq!(metrics.window(SubsystemId::Core, 5, 5), vec![core_sample(2, 3)]);
    assert_eq!(
        metrics.window(SubsystemId::Core, u64::MAX, u64::MAX),
        vec![core_sample(2, 3)]
    );
}

#[test]
fn full_buffer_drops_the_oldest_sample() {
    let mut metrics = collector(3);
    for timestamp in 1..=3 {
        metrics.record(core_sample(timestamp * 10, timestamp));
    }
    assert_eq!(metrics.len(), 3);
    assert_eq!(metrics.evicted(), 0);
    metrics.record(core_sample(40, 4));
    assert_eq!(metrics.len(), 3);
    assert_eq!(metrics.evicted(), 1);
    assert_eq!(
        metrics.window(SubsystemId::Core, 10, 10),
        vec![core_sample(20, 2), core_sample(30, 3), core_sample(40, 4)]
    );
    metrics.record(core_sample(50, 5));
    metrics.record(core_sample(60, 6));
    assert_eq!(metrics.evicted(), 3);
    assert_eq!(
        metrics.window(SubsystemId::Core, 10, 10),
        vec![core_sample(40, 4), core_sample(50, 5), core_sample(60, 6)]
    );
}

#[test]
fn buffer_of_one_keeps_the_newest_sample() {
    let mut metrics = collector(1);
    metrics.record(core_sample(1, 1));
    metrics.record(core_sample(2, 2));
    assert_eq!(metrics.len(), 1);
    assert_eq!(metrics.evicted(), 1);
    assert_eq!(metrics.window(SubsystemId::Core, 2, 2), vec![core_sample(2, 2)]);
}

#[test]
fn snapshot_is_untouched_by_later_writes() {
    let mut metrics = collector(2);
    metrics.record(core_sample(1, 1));
    metrics.record(core_sample(2, 2));
    let snapshot = metrics.window(SubsystemId::Core, 10, 10);
    metrics.record(core_sample(3, 3));
    metrics.record(core_sample(4, 4));
    assert_eq!(snapshot, vec![core_sample(1, 1), core_sample(2, 2)]);
    let again = metrics.window(SubsystemId::Core, 10, 10);
    assert_eq!(again, vec![core_sample(3, 3), core_sample(4, 4)]);
    assert_eq!(metrics.window(SubsystemId::Core, 10, 10), again);
}

#[test]
fn collector_start_and_stop_are_idempotent_and_keep_the_samples() {
    let mut metrics = collector(4);
    metrics.record(core_sample(7, 7));
    metrics.stop();
    assert!(!metrics.is_started());
    metrics.start();
    metrics.start();
    assert!(metrics.is_started());
    assert_eq!(metrics.len(), 1);
    metrics.stop();
    metrics.stop();
    assert!(!metrics.is_started());
    assert_eq!(metrics.window(SubsystemId::Core, 7, 7), vec![core_sample(7, 7)]);
    metrics.record(core_sample(8, 8));
    assert_eq!(metrics.len(), 2);
}
