use nvml_exporter::metrics::{Metric, Metrics};
use nvml_exporter::str_helpers::MemoryState;

#[test]
fn new_registry_is_empty_and_counts_zero_devices() {
    let metrics = Metrics::new();
    assert_eq!(metrics.device_count(), 0);
    let uuid = String::from("GPU-a");
    assert_eq!(metrics.get(Metric::Temperature, 0, &uuid), None);
    let snapshot = metrics.snapshot();
    assert_eq!(snapshot.device_count, 0);
    assert!(snapshot.samples.is_empty());
}

#[test]
fn set_device_count_keeps_the_series() {
    let mut metrics = Metrics::new();
    let uuid = String::from("GPU-a");
    metrics.set(Metric::Temperature, 0, &uuid, 40);
    metrics.set_device_count(3);
    assert_eq!(metrics.device_count(), 3);
    assert_eq!(metrics.get(Metric::Temperature, 0, &uuid), Some(40));
}

#[test]
fn last_write_wins() {
    let mut metrics = Metrics::new();
    let uuid = String::from("GPU-a");
    metrics.set(Metric::Temperature, 0, &uuid, 40);
    metrics.set(Metric::Temperature, 0, &uuid, 41);
    assert_eq!(metrics.get(Metric::Temperature, 0, &uuid), Some(41));
    assert_eq!(metrics.snapshot().samples.len(), 1);
}

#[test]
fn series_differ_by_metric_device_and_uuid() {
    let mut metrics = Metrics::new();
    let a = String::from("GPU-a");
    let b = String::from("GPU-b");
    metrics.set(Metric::Temperature, 0, &a, 1);
    metrics.set(Metric::PowerUsage, 0, &a, 2);
    metrics.set(Metric::Temperature, 1, &a, 3);
    metrics.set(Metric::Temperature, 0, &b, 4);
    metrics.set(Metric::MemoryInfo(MemoryState::Free), 0, &a, 5);
    metrics.set(Metric::MemoryInfo(MemoryState::Used), 0, &a, 6);
    assert_eq!(metrics.get(Metric::Temperature, 0, &a), Some(1));
    assert_eq!(metrics.get(Metric::PowerUsage, 0, &a), Some(2));
    assert_eq!(metrics.get(Metric::Temperature, 1, &a), Some(3));
    assert_eq!(metrics.get(Metric::Temperature, 0, &b), Some(4));
    assert_eq!(metrics.get(Metric::MemoryInfo(MemoryState::Free), 0, &a), Some(5));
    assert_eq!(metrics.get(Metric::MemoryInfo(MemoryState::Used), 0, &a), Some(6));
    assert_eq!(metrics.get(Metric::MemoryInfo(MemoryState::Total), 0, &a), None);
    assert_eq!(metrics.snapshot().samples.len(), 6);
}

#[test]
fn record_writes_a_reading_and_skips_a_failure() {
    let mut metrics = Metrics::new();
    let uuid = String::from("GPU-a");
    metrics.record(Metric::Temperature, 0, &uuid, None);
    assert_eq!(metrics.get(Metric::Temperature, 0, &uuid), None);
    metrics.record(Metric::Temperature, 0, &uuid, Some(55));
    assert_eq!(metrics.get(Metric::Temperature, 0, &uuid), Some(55));
    metrics.record(Metric::Temperature, 0, &uuid, None);
    assert_eq!(metrics.get(Metric::Temperature, 0, &uuid), Some(55));
}

#[test]
fn snapshot_holds_each_series_once_with_its_value() {
    let mut metrics = Metrics::new();
    let uuid = String::from("GPU-a");
    metrics.set_device_count(1);
    metrics.set(Metric::Temperature, 0, &uuid, 40);
    metrics.set(Metric::PowerUsage, 0, &uuid, 90_000);
    metrics.set(Metric::Temperature, 0, &uuid, 42);
    let snapshot = metrics.snapshot();
    assert_eq!(snapshot.device_count, 1);
    assert_eq!(snapshot.samples.len(), 2);
    let temperature: Vec<_> =
        snapshot.samples.iter().filter(|s| s.metric == Metric::Temperature).collect();
    assert_eq!(temperature.len(), 1);
    assert_eq!(temperature[0].value, 42);
    assert_eq!(temperature[0].device, 0);
    assert_eq!(temperature[0].uuid, "GPU-a");
    let power: Vec<_> =
        snapshot.samples.iter().filter(|s| s.metric == Metric::PowerUsage).collect();
    assert_eq!(power.len(), 1);
    assert_eq!(power[0].value, 90_000);
}

#[test]
fn snapshot_is_not_changed_by_later_writes() {
    let mut metrics = Metrics::new();
    let uuid = String::from("GPU-a");
    metrics.set(Metric::Temperature, 0, &uuid, 40);
    let snapshot = metrics.snapshot();
    metrics.set(Metric::Temperature, 0, &uuid, 99);
    metrics.set_device_count(8);
    assert_eq!(snapshot.samples[0].value, 40);
    assert_eq!(snapshot.device_count, 0);
}
