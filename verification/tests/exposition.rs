use std::collections::HashMap;

use nvml_exporter::gather::record_pass;
use nvml_exporter::metrics::{Family, Metrics, Snapshot};
use nvml_exporter::readings::{
    ClockReadings, ClockSpeeds, DeviceOutcome, DeviceReadings, EccReading, ErrorCounts, MemoryErrorReadings,
    MemoryInfo, PassReadings, ScopedErrorCounts, ThrottleReading,
};
use nvml_exporter::str_helpers::ThrottleReasons;
use prometheus::{Encoder, Gauge, GaugeVec, Opts, Registry, TextEncoder};

fn no_speeds() -> ClockSpeeds {
    ClockSpeeds { graphics: None, sm: None, memory: None, video: None }
}

fn no_clocks() -> ClockReadings {
    ClockReadings {
        current: no_speeds(),
        target_app_clock: no_speeds(),
        default_app_clock: no_speeds(),
        customer_max_boost: no_speeds(),
    }
}

fn blank(index: u32, uuid: &str) -> DeviceReadings {
    DeviceReadings {
        index,
        uuid: String::from(uuid),
        temperature: None,
        power_usage: None,
        running_compute_processes_count: None,
        running_graphics_processes_count: None,
        current_pcie_link_width: None,
        current_pcie_link_gen: None,
        max_pcie_link_width: None,
        max_pcie_link_gen: None,
        display_active: None,
        display_connected: None,
        utilization: None,
        encoder: None,
        fbc: None,
        memory: None,
        clocks: no_clocks(),
        throttle: ThrottleReading::Skipped,
        ecc: EccReading::Disabled,
    }
}

/// Writes a snapshot in the text exposition format.
fn expose(snapshot: &Snapshot) -> String {
    let registry = Registry::new();
    let count = Gauge::new(Family::DeviceCount.name(), Family::DeviceCount.help()).unwrap();
    count.set(snapshot.device_count as f64);
    registry.register(Box::new(count)).unwrap();
    let mut families: HashMap<&'static str, GaugeVec> = HashMap::new();
    for sample in &snapshot.samples {
        let family = sample.metric.family();
        let gauges = families.entry(family.name()).or_insert_with(|| {
            let gauges =
                GaugeVec::new(Opts::new(family.name(), family.help()), &family.label_names())
                    .unwrap();
            registry.register(Box::new(gauges.clone())).unwrap();
            gauges
        });
        let values = sample.label_values();
        let values: Vec<&str> = values.iter().map(String::as_str).collect();
        gauges
            .get_metric_with_label_values(&values)
            .unwrap()
            .set(sample.value as f64 / family.divisor() as f64);
    }
    let mut buffer = vec![];
    TextEncoder::new().encode(&registry.gather(), &mut buffer).unwrap();
    String::from_utf8(buffer).unwrap()
}

fn lines(text: &str) -> Vec<&str> {
    text.lines().filter(|line| !line.starts_with('#')).collect()
}

#[test]
fn scrape_shows_temperature_and_power_in_watts() {
    let mut metrics = Metrics::new();
    let mut device = blank(0, "GPU-5d2f");
    device.temperature = Some(72);
    device.power_usage = Some(150_000);
    record_pass(&mut metrics, &PassReadings { count: 1, devices: vec![DeviceOutcome::Read(device)] });
    let text = expose(&metrics.snapshot());
    let lines = lines(&text);
    assert!(lines.contains(&"nvml_temperature{device=\"0\",uuid=\"GPU-5d2f\"} 72"));
    assert!(lines.contains(&"nvml_power_usage{device=\"0\",uuid=\"GPU-5d2f\"} 150"));
    assert!(lines.contains(&"nvml_device_count 1"));
    assert_eq!(lines.len(), 3);
}

#[test]
fn scrape_keeps_fractions_of_a_watt() {
    let mut metrics = Metrics::new();
    let mut device = blank(0, "GPU-5d2f");
    device.power_usage = Some(150_500);
    record_pass(&mut metrics, &PassReadings { count: 1, devices: vec![DeviceOutcome::Read(device)] });
    let text = expose(&metrics.snapshot());
    assert!(lines(&text).contains(&"nvml_power_usage{device=\"0\",uuid=\"GPU-5d2f\"} 150.5"));
}

#[test]
fn scrape_without_devices_shows_the_count_alone() {
    let mut metrics = Metrics::new();
    record_pass(&mut metrics, &PassReadings { count: 0, devices: vec![] });
    let text = expose(&metrics.snapshot());
    assert_eq!(lines(&text), vec!["nvml_device_count 0"]);
}

#[test]
fn scrape_before_any_pass_shows_the_count_alone() {
    let metrics = Metrics::new();
    let text = expose(&metrics.snapshot());
    assert_eq!(lines(&text), vec!["nvml_device_count 0"]);
}

#[test]
fn scrape_labels_every_family_by_its_schema() {
    let mut metrics = Metrics::new();
    let mut device = blank(1, "GPU-a");
    device.memory = Some(MemoryInfo { free: 10, total: 30, used: 20 });
    device.clocks.current.memory = Some(9501);
    device.throttle = ThrottleReading::Read(ThrottleReasons { bits: 0x4 });
    let none = ScopedErrorCounts {
        volatile: ErrorCounts { corrected: None, uncorrected: None },
        aggregate: ErrorCounts { corrected: None, uncorrected: None },
    };
    let mut counters = MemoryErrorReadings {
        l1_cache: none,
        l2_cache: none,
        device: none,
        register_file: none,
        texture: none,
        shared: none,
        cbu: none,
        sram: none,
    };
    counters.l2_cache.aggregate.uncorrected = Some(3);
    device.ecc = EccReading::Enabled(counters);
    record_pass(&mut metrics, &PassReadings { count: 2, devices: vec![DeviceOutcome::Unresolved { index: 0 }, DeviceOutcome::Read(device)] });
    let text = expose(&metrics.snapshot());
    let lines = lines(&text);
    let expected = [
        "nvml_device_count 2",
        "nvml_memory_info{device=\"1\",state=\"free\",uuid=\"GPU-a\"} 10",
        "nvml_memory_info{device=\"1\",state=\"total\",uuid=\"GPU-a\"} 30",
        "nvml_memory_info{device=\"1\",state=\"used\",uuid=\"GPU-a\"} 20",
        "nvml_clock{clock_id=\"current\",device=\"1\",type=\"mem\",uuid=\"GPU-a\"} 9501",
        "nvml_applications_clock{clock_id=\"current\",device=\"1\",type=\"mem\",uuid=\"GPU-a\"} 9501",
        "nvml_current_clocks_throttle_reasons{device=\"1\",reason=\"sw_power_cap\",uuid=\"GPU-a\"} 1",
        "nvml_current_clocks_throttle_reasons{device=\"1\",reason=\"gpu_idle\",uuid=\"GPU-a\"} 0",
        "nvml_current_clocks_throttle_reasons{device=\"1\",reason=\"none\",uuid=\"GPU-a\"} 0",
        "nvml_memory_error_counters{device=\"1\",ecc_counter=\"aggregate\",mem_error=\"uncorrected\",mem_location=\"l2_cache\",uuid=\"GPU-a\"} 3",
    ];
    for line in expected {
        assert!(lines.contains(&line), "missing {line} in\n{text}");
    }
    assert_eq!(lines.len(), 1 + 3 + 1 + 1 + 10 + 1);
}
