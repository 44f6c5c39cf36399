use nvml_exporter::gather::{begin_pass, gather, record_device, record_pass, scrape, GatherError};
use nvml_exporter::metrics::{Family, Metric, Metrics};
use nvml_exporter::readings::{
    flag_value, throttle_indicator, widen, ClockReadings, EncoderStats, ClockSpeeds, DeviceOutcome, DeviceReadings, EccReading, EncoderReadings, ErrorCounts, FbcStats,
    MemoryErrorReadings, MemoryInfo, PassReadings, ScopedErrorCounts, ThrottleReading, Utilization,
};
use nvml_exporter::Options;
use nvml_exporter::str_helpers::{
    Clock, ClockId, EccCounter, MemoryError, MemoryLocation, MemoryState, ThrottleReason,
    ThrottleReasons,
};

const REASONS: [ThrottleReason; 10] = [
    ThrottleReason::GpuIdle,
    ThrottleReason::ApplicationsClocksSetting,
    ThrottleReason::SwPowerCap,
    ThrottleReason::HwSlowdown,
    ThrottleReason::SyncBoost,
    ThrottleReason::SwThermalSlowdown,
    ThrottleReason::HwThermalSlowdown,
    ThrottleReason::HwPowerBrakeSlowdown,
    ThrottleReason::DisplayClockSetting,
    ThrottleReason::Unthrottled,
];

const CLOCK_IDS: [ClockId; 4] =
    [ClockId::Current, ClockId::TargetAppClock, ClockId::DefaultAppClock, ClockId::CustomerMaxBoost];

const CLOCKS: [Clock; 4] = [Clock::Graphics, Clock::SM, Clock::Memory, Clock::Video];

const ERRORS: [MemoryError; 2] = [MemoryError::Corrected, MemoryError::Uncorrected];

const COUNTERS: [EccCounter; 2] = [EccCounter::Aggregate, EccCounter::Volatile];

const LOCATIONS: [MemoryLocation; 8] = [
    MemoryLocation::Cbu,
    MemoryLocation::Device,
    MemoryLocation::L1Cache,
    MemoryLocation::L2Cache,
    MemoryLocation::RegisterFile,
    MemoryLocation::Shared,
    MemoryLocation::SRAM,
    MemoryLocation::Texture,
];

fn no_speeds() -> ClockSpeeds {
    ClockSpeeds { graphics: None, sm: None, memory: None, video: None }
}

fn no_clocks() -> ClockReadings {
    ClockReadings {
        current: no_speeds(),
        target_app_clock: no_speeds(),
        default_app_clock: no_speeds(),
        customer_max_boost: no_speeds(),
    }
}

fn no_counts() -> ScopedErrorCounts {
    ScopedErrorCounts {
        volatile: ErrorCounts { corrected: None, uncorrected: None },
        aggregate: ErrorCounts { corrected: None, uncorrected: None },
    }
}

fn no_counters() -> MemoryErrorReadings {
    MemoryErrorReadings {
        l1_cache: no_counts(),
        l2_cache: no_counts(),
        device: no_counts(),
        register_file: no_counts(),
        texture: no_counts(),
        shared: no_counts(),
        cbu: no_counts(),
        sram: no_counts(),
    }
}

/// A device that was resolved and of which every read failed.
fn blank(index: u32, uuid: &str) -> DeviceReadings {
    DeviceReadings {
        index,
        uuid: String::from(uuid),
        temperature: None,
        power_usage: None,
        running_compute_processes_count: None,
        running_graphics_processes_count: None,
        current_pcie_link_width: None,
        current_pcie_link_gen: None,
        max_pcie_link_width: None,
        max_pcie_link_gen: None,
        display_active: None,
        display_connected: None,
        utilization: None,
        encoder: None,
        fbc: None,
        memory: None,
        clocks: no_clocks(),
        throttle: ThrottleReading::Skipped,
        ecc: EccReading::Failed,
    }
}

fn count_family(metrics: &Metrics, family: Family) -> usize {
    metrics.snapshot().samples.iter().filter(|s| s.metric.family() == family).count()
}

#[test]
fn one_device_with_temperature_and_power() {
    let mut metrics = Metrics::new();
    let mut device = blank(0, "GPU-5d2f");
    device.temperature = Some(72);
    device.power_usage = Some(150_000);
    record_pass(&mut metrics, &PassReadings { count: 1, devices: vec![DeviceOutcome::Read(device)] });
    let uuid = String::from("GPU-5d2f");
    assert_eq!(metrics.device_count(), 1);
    assert_eq!(metrics.get(Metric::Temperature, 0, &uuid), Some(72));
    assert_eq!(metrics.get(Metric::PowerUsage, 0, &uuid), Some(150_000));
    assert_eq!(Family::PowerUsage.divisor(), 1000);
    let watts = 150_000 as f64 / Family::PowerUsage.divisor() as f64;
    assert_eq!(watts, 150.0);
    assert_eq!(metrics.snapshot().samples.len(), 2);
}

#[test]
fn no_devices_means_count_zero_and_no_series() {
    let mut metrics = Metrics::new();
    record_pass(&mut metrics, &PassReadings { count: 0, devices: vec![] });
    assert_eq!(metrics.device_count(), 0);
    let snapshot = metrics.snapshot();
    assert_eq!(snapshot.device_count, 0);
    assert!(snapshot.samples.is_empty());
}

#[test]
fn device_count_is_set_on_every_pass() {
    let mut metrics = Metrics::new();
    record_pass(
        &mut metrics,
        &PassReadings { count: 2, devices: vec![DeviceOutcome::Read(blank(0, "a")), DeviceOutcome::Read(blank(1, "b"))] },
    );
    assert_eq!(metrics.device_count(), 2);
    record_pass(&mut metrics, &PassReadings { count: 1, devices: vec![DeviceOutcome::Read(blank(0, "a"))] });
    assert_eq!(metrics.device_count(), 1);
    record_pass(&mut metrics, &PassReadings { count: 0, devices: vec![] });
    assert_eq!(metrics.device_count(), 0);
}

#[test]
fn failed_read_leaves_the_earlier_value() {
    let mut metrics = Metrics::new();
    let uuid = String::from("GPU-a");
    let mut first = blank(0, "GPU-a");
    first.temperature = Some(60);
    first.power_usage = Some(80_000);
    record_pass(&mut metrics, &PassReadings { count: 1, devices: vec![DeviceOutcome::Read(first)] });
    let mut second = blank(0, "GPU-a");
    second.temperature = None;
    second.power_usage = Some(81_000);
    record_pass(&mut metrics, &PassReadings { count: 1, devices: vec![DeviceOutcome::Read(second)] });
    assert_eq!(metrics.get(Metric::Temperature, 0, &uuid), Some(60));
    assert_eq!(metrics.get(Metric::PowerUsage, 0, &uuid), Some(81_000));
}

#[test]
fn failed_read_of_an_unseen_series_writes_nothing() {
    let mut metrics = Metrics::new();
    let uuid = String::from("GPU-a");
    record_pass(&mut metrics, &PassReadings { count: 1, devices: vec![DeviceOutcome::Read(blank(0, "GPU-a"))] });
    assert_eq!(metrics.get(Metric::Temperature, 0, &uuid), None);
    assert!(metrics.snapshot().samples.is_empty());
}

#[test]
fn unresolved_device_is_skipped_and_the_pass_goes_on() {
    let mut metrics = Metrics::new();
    let mut zero = blank(0, "GPU-a");
    zero.temperature = Some(50);
    let mut two = blank(2, "GPU-c");
    two.temperature = Some(52);
    let mut earlier = blank(1, "GPU-b");
    earlier.temperature = Some(51);
    record_pass(&mut metrics, &PassReadings { count: 2, devices: vec![DeviceOutcome::Unresolved { index: 0 }, DeviceOutcome::Read(earlier)] });
    record_pass(&mut metrics, &PassReadings { count: 3, devices: vec![DeviceOutcome::Read(zero), DeviceOutcome::Unresolved { index: 1 }, DeviceOutcome::Read(two)] });
    assert_eq!(metrics.device_count(), 3);
    assert_eq!(metrics.get(Metric::Temperature, 0, &String::from("GPU-a")), Some(50));
    assert_eq!(metrics.get(Metric::Temperature, 1, &String::from("GPU-b")), Some(51));
    assert_eq!(metrics.get(Metric::Temperature, 2, &String::from("GPU-c")), Some(52));
}

#[test]
fn series_of_a_vanished_device_stay() {
    let mut metrics = Metrics::new();
    let mut zero = blank(0, "GPU-a");
    zero.temperature = Some(50);
    let mut one = blank(1, "GPU-b");
    one.temperature = Some(51);
    record_pass(&mut metrics, &PassReadings { count: 2, devices: vec![DeviceOutcome::Read(zero), DeviceOutcome::Read(one)] });
    let mut again = blank(0, "GPU-a");
    again.temperature = Some(53);
    record_pass(&mut metrics, &PassReadings { count: 1, devices: vec![DeviceOutcome::Read(again)] });
    assert_eq!(metrics.device_count(), 1);
    assert_eq!(metrics.get(Metric::Temperature, 0, &String::from("GPU-a")), Some(53));
    assert_eq!(metrics.get(Metric::Temperature, 1, &String::from("GPU-b")), Some(51));
}

#[test]
fn series_are_keyed_by_the_uuid_of_the_pass() {
    let mut metrics = Metrics::new();
    let mut before = blank(0, "GPU-old");
    before.temperature = Some(40);
    record_device(&mut metrics, &before);
    let mut after = blank(0, "GPU-new");
    after.temperature = Some(45);
    record_device(&mut metrics, &after);
    assert_eq!(metrics.get(Metric::Temperature, 0, &String::from("GPU-old")), Some(40));
    assert_eq!(metrics.get(Metric::Temperature, 0, &String::from("GPU-new")), Some(45));
}

#[test]
fn record_device_leaves_the_device_count() {
    let mut metrics = Metrics::new();
    metrics.set_device_count(4);
    let mut device = blank(1, "GPU-b");
    device.temperature = Some(30);
    record_device(&mut metrics, &device);
    assert_eq!(metrics.device_count(), 4);
}

#[test]
fn every_scalar_is_written_under_its_metric() {
    let mut metrics = Metrics::new();
    let uuid = String::from("GPU-a");
    let mut device = blank(3, "GPU-a");
    device.temperature = Some(1);
    device.power_usage = Some(2);
    device.running_compute_processes_count = Some(3);
    device.running_graphics_processes_count = Some(4);
    device.current_pcie_link_width = Some(5);
    device.current_pcie_link_gen = Some(6);
    device.max_pcie_link_width = Some(7);
    device.max_pcie_link_gen = Some(8);
    device.display_active = Some(true);
    device.display_connected = Some(false);
    record_device(&mut metrics, &device);
    let expected = [
        (Metric::Temperature, 1u64),
        (Metric::PowerUsage, 2),
        (Metric::RunningComputeProcessesCount, 3),
        (Metric::RunningGraphicsProcessesCount, 4),
        (Metric::CurrentPcieLinkWidth, 5),
        (Metric::CurrentPcieLinkGeneration, 6),
        (Metric::MaxPcieLinkWidth, 7),
        (Metric::MaxPcieLinkGeneration, 8),
        (Metric::DisplayActive, 1),
        (Metric::DisplayMode, 0),
    ];
    for (metric, value) in expected {
        assert_eq!(metrics.get(metric, 3, &uuid), Some(value));
    }
    assert_eq!(metrics.snapshot().samples.len(), 10);
}

#[test]
fn structured_reads_are_written_whole_or_not_at_all() {
    let mut metrics = Metrics::new();
    let uuid = String::from("GPU-a");
    let mut device = blank(0, "GPU-a");
    device.utilization = Some(Utilization { gpu: 97, memory: 43 });
    device.fbc = Some(FbcStats { sessions_count: 2, average_fps: 60, average_latency: 1500 });
    device.memory = Some(MemoryInfo { free: 1 << 33, total: 3 << 33, used: 2 << 33 });
    record_device(&mut metrics, &device);
    assert_eq!(metrics.get(Metric::UtilizationGpu, 0, &uuid), Some(97));
    assert_eq!(metrics.get(Metric::UtilizationMemory, 0, &uuid), Some(43));
    assert_eq!(metrics.get(Metric::FbcStatsSessionsCount, 0, &uuid), Some(2));
    assert_eq!(metrics.get(Metric::FbcStatsAverageFps, 0, &uuid), Some(60));
    assert_eq!(metrics.get(Metric::FbcStatsAverageLatency, 0, &uuid), Some(1500));
    assert_eq!(metrics.get(Metric::MemoryInfo(MemoryState::Free), 0, &uuid), Some(1 << 33));
    assert_eq!(metrics.get(Metric::MemoryInfo(MemoryState::Total), 0, &uuid), Some(3 << 33));
    assert_eq!(metrics.get(Metric::MemoryInfo(MemoryState::Used), 0, &uuid), Some(2 << 33));
    assert_eq!(metrics.get(Metric::EncoderStatsSessionsCount, 0, &uuid), None);
    assert_eq!(metrics.snapshot().samples.len(), 8);

    let mut later = blank(0, "GPU-a");
    later.fbc = Some(FbcStats { sessions_count: 0, average_fps: 0, average_latency: 0 });
    record_device(&mut metrics, &later);
    assert_eq!(metrics.get(Metric::UtilizationGpu, 0, &uuid), Some(97));
    assert_eq!(metrics.get(Metric::UtilizationMemory, 0, &uuid), Some(43));
    assert_eq!(metrics.get(Metric::FbcStatsSessionsCount, 0, &uuid), Some(0));
    assert_eq!(metrics.get(Metric::MemoryInfo(MemoryState::Used), 0, &uuid), Some(2 << 33));
}

#[test]
fn encoder_group_hangs_on_the_stats_read() {
    let mut metrics = Metrics::new();
    let uuid = String::from("GPU-a");
    let mut device = blank(0, "GPU-a");
    device.encoder = Some(EncoderReadings {
        session_count: 1,
        average_fps: 30,
        average_latency: 900,
        capacity_h264: Some(100),
        capacity_hevc: None,
    });
    record_device(&mut metrics, &device);
    assert_eq!(metrics.get(Metric::EncoderStatsSessionsCount, 0, &uuid), Some(1));
    assert_eq!(metrics.get(Metric::EncoderStatsAverageFps, 0, &uuid), Some(30));
    assert_eq!(metrics.get(Metric::EncoderStatsAverageLatency, 0, &uuid), Some(900));
    assert_eq!(metrics.get(Metric::EncoderCapacityH264, 0, &uuid), Some(100));
    assert_eq!(metrics.get(Metric::EncoderCapacityHevc, 0, &uuid), None);

    let mut later = blank(0, "GPU-a");
    later.encoder = None;
    record_device(&mut metrics, &later);
    assert_eq!(metrics.get(Metric::EncoderStatsSessionsCount, 0, &uuid), Some(1));
    assert_eq!(metrics.get(Metric::EncoderCapacityH264, 0, &uuid), Some(100));
}

#[test]
fn clock_family_holds_one_series_per_read_that_succeeded() {
    let mut metrics = Metrics::new();
    let uuid = String::from("GPU-a");
    let mut device = blank(0, "GPU-a");
    device.clocks.current =
        ClockSpeeds { graphics: Some(1410), sm: Some(1410), memory: Some(9501), video: Some(1275) };
    device.clocks.customer_max_boost.graphics = Some(2100);
    record_device(&mut metrics, &device);
    assert_eq!(count_family(&metrics, Family::Clock), 5);
    assert_eq!(count_family(&metrics, Family::ApplicationsClock), 5);
    assert_eq!(
        metrics.get(Metric::ApplicationsClock(ClockId::Current, Clock::Memory), 0, &uuid),
        Some(9501)
    );
    assert_eq!(
        metrics.get(Metric::ApplicationsClock(ClockId::TargetAppClock, Clock::SM), 0, &uuid),
        None
    );
    assert_eq!(metrics.get(Metric::Clock(ClockId::Current, Clock::Graphics), 0, &uuid), Some(1410));
    assert_eq!(metrics.get(Metric::Clock(ClockId::Current, Clock::SM), 0, &uuid), Some(1410));
    assert_eq!(metrics.get(Metric::Clock(ClockId::Current, Clock::Memory), 0, &uuid), Some(9501));
    assert_eq!(metrics.get(Metric::Clock(ClockId::Current, Clock::Video), 0, &uuid), Some(1275));
    assert_eq!(
        metrics.get(Metric::Clock(ClockId::CustomerMaxBoost, Clock::Graphics), 0, &uuid),
        Some(2100)
    );
    assert_eq!(metrics.get(Metric::Clock(ClockId::TargetAppClock, Clock::SM), 0, &uuid), None);
}

#[test]
fn clock_family_never_exceeds_sixteen_series_per_device() {
    let mut metrics = Metrics::new();
    let uuid = String::from("GPU-a");
    let all = ClockSpeeds { graphics: Some(1), sm: Some(2), memory: Some(3), video: Some(4) };
    let mut device = blank(0, "GPU-a");
    device.clocks = ClockReadings {
        current: all,
        target_app_clock: all,
        default_app_clock: all,
        customer_max_boost: all,
    };
    record_device(&mut metrics, &device);
    record_device(&mut metrics, &device);
    assert_eq!(count_family(&metrics, Family::Clock), 16);
    assert_eq!(count_family(&metrics, Family::ApplicationsClock), 16);
    for id in CLOCK_IDS {
        for clock in CLOCKS {
            assert!(metrics.get(Metric::Clock(id, clock), 0, &uuid).is_some());
            assert!(metrics.get(Metric::ApplicationsClock(id, clock), 0, &uuid).is_some());
        }
    }
    assert_eq!(metrics.get(Metric::Clock(ClockId::DefaultAppClock, Clock::Memory), 0, &uuid), Some(3));
}

#[test]
fn throttle_indicator_is_one_where_the_bit_is_set() {
    let mask = ThrottleReasons { bits: 0x4 | 0x40 };
    assert_eq!(throttle_indicator(mask, ThrottleReason::SwPowerCap), 1);
    assert_eq!(throttle_indicator(mask, ThrottleReason::HwThermalSlowdown), 1);
    assert_eq!(throttle_indicator(mask, ThrottleReason::GpuIdle), 0);
    assert_eq!(throttle_indicator(mask, ThrottleReason::Unthrottled), 0);
    assert_eq!(throttle_indicator(ThrottleReasons { bits: 0 }, ThrottleReason::Unthrottled), 0);
}

#[test]
fn throttle_group_writes_ten_indicators_that_count_the_set_bits() {
    for bits in [0u64, 0x1, 0x5, 0x48, 0x100, 0x1ff, 0xaa] {
        let mut metrics = Metrics::new();
        let uuid = String::from("GPU-a");
        let mut device = blank(0, "GPU-a");
        device.throttle = ThrottleReading::Read(ThrottleReasons { bits });
        record_device(&mut metrics, &device);
        assert_eq!(count_family(&metrics, Family::CurrentClocksThrottleReasons), 10);
        let mut sum = 0;
        for reason in REASONS {
            let value = metrics.get(Metric::CurrentClocksThrottleReasons(reason), 0, &uuid);
            assert!(value == Some(0) || value == Some(1));
            assert_eq!(value == Some(1), bits & reason.flag().bits != 0);
            sum += value.unwrap();
        }
        assert_eq!(sum, bits.count_ones() as u64);
    }
}

#[test]
fn throttle_indicator_goes_back_to_zero() {
    let mut metrics = Metrics::new();
    let uuid = String::from("GPU-a");
    let mut device = blank(0, "GPU-a");
    device.throttle = ThrottleReading::Read(ThrottleReasons { bits: 0x8 });
    record_device(&mut metrics, &device);
    assert_eq!(
        metrics.get(Metric::CurrentClocksThrottleReasons(ThrottleReason::HwSlowdown), 0, &uuid),
        Some(1)
    );
    device.throttle = ThrottleReading::Read(ThrottleReasons { bits: 0 });
    record_device(&mut metrics, &device);
    assert_eq!(
        metrics.get(Metric::CurrentClocksThrottleReasons(ThrottleReason::HwSlowdown), 0, &uuid),
        Some(0)
    );
}

#[test]
fn throttle_group_is_not_written_when_skipped_or_failed() {
    for reading in [ThrottleReading::Skipped, ThrottleReading::Failed] {
        let mut metrics = Metrics::new();
        let mut device = blank(0, "GPU-a");
        device.throttle = reading;
        record_device(&mut metrics, &device);
        assert_eq!(count_family(&metrics, Family::CurrentClocksThrottleReasons), 0);
    }
}

#[test]
fn failed_throttle_read_leaves_the_earlier_indicators() {
    let mut metrics = Metrics::new();
    let uuid = String::from("GPU-a");
    let mut device = blank(0, "GPU-a");
    device.throttle = ThrottleReading::Read(ThrottleReasons { bits: 0x1 });
    record_device(&mut metrics, &device);
    device.throttle = ThrottleReading::Failed;
    record_device(&mut metrics, &device);
    assert_eq!(
        metrics.get(Metric::CurrentClocksThrottleReasons(ThrottleReason::GpuIdle), 0, &uuid),
        Some(1)
    );
    assert_eq!(count_family(&metrics, Family::CurrentClocksThrottleReasons), 10);
}

#[test]
fn memory_errors_are_not_written_without_ecc() {
    for reading in [EccReading::Disabled, EccReading::Failed] {
        let mut metrics = Metrics::new();
        let mut device = blank(0, "GPU-a");
        device.temperature = Some(33);
        device.ecc = reading;
        record_device(&mut metrics, &device);
        assert_eq!(count_family(&metrics, Family::MemoryErrorCounters), 0);
        assert_eq!(metrics.snapshot().samples.len(), 1);
    }
}

#[test]
fn memory_error_counters_that_failed_are_left_out() {
    let mut metrics = Metrics::new();
    let uuid = String::from("GPU-a");
    let mut counters = no_counters();
    counters.device.volatile.corrected = Some(0);
    counters.device.aggregate.uncorrected = Some(7);
    counters.sram.aggregate.corrected = Some(u64::MAX);
    let mut device = blank(0, "GPU-a");
    device.ecc = EccReading::Enabled(counters);
    record_device(&mut metrics, &device);
    assert_eq!(count_family(&metrics, Family::MemoryErrorCounters), 3);
    assert_eq!(
        metrics.get(
            Metric::MemoryErrorCounters(
                MemoryError::Corrected,
                EccCounter::Volatile,
                MemoryLocation::Device
            ),
            0,
            &uuid
        ),
        Some(0)
    );
    assert_eq!(
        metrics.get(
            Metric::MemoryErrorCounters(
                MemoryError::Uncorrected,
                EccCounter::Aggregate,
                MemoryLocation::Device
            ),
            0,
            &uuid
        ),
        Some(7)
    );
    assert_eq!(
        metrics.get(
            Metric::MemoryErrorCounters(
                MemoryError::Corrected,
                EccCounter::Aggregate,
                MemoryLocation::SRAM
            ),
            0,
            &uuid
        ),
        Some(u64::MAX)
    );
    assert_eq!(
        metrics.get(
            Metric::MemoryErrorCounters(
                MemoryError::Uncorrected,
                EccCounter::Volatile,
                MemoryLocation::Device
            ),
            0,
            &uuid
        ),
        None
    );
}

#[test]
fn all_thirty_two_memory_error_counters_have_a_series_of_their_own() {
    let mut metrics = Metrics::new();
    let uuid = String::from("GPU-a");
    let full = ScopedErrorCounts {
        volatile: ErrorCounts { corrected: Some(1), uncorrected: Some(2) },
        aggregate: ErrorCounts { corrected: Some(3), uncorrected: Some(4) },
    };
    let mut device = blank(0, "GPU-a");
    device.ecc = EccReading::Enabled(MemoryErrorReadings {
        l1_cache: full,
        l2_cache: full,
        device: full,
        register_file: full,
        texture: full,
        shared: full,
        cbu: full,
        sram: full,
    });
    record_device(&mut metrics, &device);
    assert_eq!(count_family(&metrics, Family::MemoryErrorCounters), 32);
    for location in LOCATIONS {
        for counter in COUNTERS {
            for error in ERRORS {
                let expected = match (counter, error) {
                    (EccCounter::Volatile, MemoryError::Corrected) => 1,
                    (EccCounter::Volatile, MemoryError::Uncorrected) => 2,
                    (EccCounter::Aggregate, MemoryError::Corrected) => 3,
                    (EccCounter::Aggregate, MemoryError::Uncorrected) => 4,
                };
                assert_eq!(
                    metrics.get(Metric::MemoryErrorCounters(error, counter, location), 0, &uuid),
                    Some(expected)
                );
            }
        }
    }
}

#[test]
fn ecc_switched_off_leaves_the_earlier_counters() {
    let mut metrics = Metrics::new();
    let uuid = String::from("GPU-a");
    let mut counters = no_counters();
    counters.cbu.volatile.corrected = Some(5);
    let mut device = blank(0, "GPU-a");
    device.ecc = EccReading::Enabled(counters);
    record_device(&mut metrics, &device);
    device.ecc = EccReading::Disabled;
    record_device(&mut metrics, &device);
    assert_eq!(
        metrics.get(
            Metric::MemoryErrorCounters(
                MemoryError::Corrected,
                EccCounter::Volatile,
                MemoryLocation::Cbu
            ),
            0,
            &uuid
        ),
        Some(5)
    );
}

#[test]
fn passes_with_the_same_readings_give_the_same_registry() {
    let mut metrics = Metrics::new();
    let mut device = blank(0, "GPU-a");
    device.temperature = Some(61);
    device.throttle = ThrottleReading::Read(ThrottleReasons { bits: 0x10 });
    let pass = PassReadings { count: 1, devices: vec![DeviceOutcome::Read(device)] };
    record_pass(&mut metrics, &pass);
    let once = metrics.snapshot();
    record_pass(&mut metrics, &pass);
    let twice = metrics.snapshot();
    assert_eq!(once.device_count, twice.device_count);
    assert_eq!(once.samples.len(), twice.samples.len());
    for sample in &once.samples {
        assert_eq!(metrics.get(sample.metric, sample.device, &sample.uuid), Some(sample.value));
    }
}

#[test]
fn failed_enumeration_ends_the_pass_and_writes_nothing() {
    let mut metrics = Metrics::new();
    let uuid = String::from("GPU-a");
    let mut device = blank(0, "GPU-a");
    device.temperature = Some(48);
    record_pass(&mut metrics, &PassReadings { count: 1, devices: vec![DeviceOutcome::Read(device)] });
    assert_eq!(begin_pass(&mut metrics, None), Err(GatherError::DeviceSourceUnavailable));
    assert_eq!(metrics.device_count(), 1);
    assert_eq!(metrics.get(Metric::Temperature, 0, &uuid), Some(48));
    let snapshot = metrics.snapshot();
    assert_eq!(snapshot.device_count, 1);
    assert_eq!(snapshot.samples.len(), 1);
}

#[test]
fn enumeration_sets_the_device_count_before_any_device_is_read() {
    let mut metrics = Metrics::new();
    let uuid = String::from("GPU-a");
    metrics.set(Metric::Temperature, 0, &uuid, 48);
    assert_eq!(begin_pass(&mut metrics, Some(7)), Ok(7));
    assert_eq!(metrics.device_count(), 7);
    assert_eq!(metrics.get(Metric::Temperature, 0, &uuid), Some(48));
    assert_eq!(begin_pass(&mut metrics, Some(0)), Ok(0));
    assert_eq!(metrics.device_count(), 0);
}

/// Runs a pass against the devices of this machine, where it has any.
#[test]
fn pass_over_the_devices_of_this_machine() {
    let nvml = match nvml_wrapper::Nvml::init() {
        Ok(nvml) => nvml,
        Err(_) => return,
    };
    for enable_throttle_reasons in [false, true] {
        let opts = Options { enable_throttle_reasons };
        let mut metrics = Metrics::new();
        let pass = match gather(&nvml, &mut metrics, opts) {
            Ok(pass) => pass,
            Err(e) => {
                assert_eq!(e, GatherError::DeviceSourceUnavailable);
                assert!(metrics.snapshot().samples.is_empty());
                continue;
            }
        };
        assert_eq!(metrics.device_count(), pass.count);
        assert_eq!(pass.devices.len(), pass.count as usize);
        for (i, outcome) in pass.devices.iter().enumerate() {
            match outcome {
                DeviceOutcome::Unresolved { index } => assert_eq!(*index as usize, i),
                DeviceOutcome::Read(r) => {
                    assert_eq!(r.index as usize, i);
                    match r.throttle {
                        ThrottleReading::Skipped => assert!(!enable_throttle_reasons),
                        ThrottleReading::Failed => assert!(enable_throttle_reasons),
                        ThrottleReading::Read(mask) => {
                            assert!(enable_throttle_reasons);
                            assert_eq!(mask.bits & !0x1ff, 0);
                        }
                    }
                    assert_eq!(
                        metrics.get(Metric::Temperature, r.index, &r.uuid),
                        r.temperature.map(u64::from)
                    );
                }
            }
        }
        let answer = scrape(&nvml, &mut metrics, opts);
        assert_eq!(answer.snapshot.device_count, metrics.device_count());
        assert_eq!(answer.snapshot.samples.len(), metrics.snapshot().samples.len());
    }
}

#[test]
fn readings_become_registry_values() {
    assert_eq!(widen(None), None);
    assert_eq!(widen(Some(0)), Some(0));
    assert_eq!(widen(Some(u32::MAX)), Some(4_294_967_295));
    assert_eq!(flag_value(None), None);
    assert_eq!(flag_value(Some(true)), Some(1));
    assert_eq!(flag_value(Some(false)), Some(0));
}

#[test]
fn value_of_a_metric_comes_from_its_read() {
    let mut device = blank(0, "GPU-a");
    device.power_usage = Some(150_000);
    device.display_active = Some(true);
    device.utilization = Some(Utilization { gpu: 9, memory: 8 });
    device.memory = Some(MemoryInfo { free: 1, total: 3, used: 2 });
    device.clocks.target_app_clock.sm = Some(1500);
    device.throttle = ThrottleReading::Read(ThrottleReasons { bits: 0x2 });
    let mut counters = no_counters();
    counters.shared.volatile.uncorrected = Some(4);
    device.ecc = EccReading::Enabled(counters);
    assert_eq!(device.value(Metric::PowerUsage), Some(150_000));
    assert_eq!(device.value(Metric::Temperature), None);
    assert_eq!(device.value(Metric::DisplayActive), Some(1));
    assert_eq!(device.value(Metric::UtilizationGpu), Some(9));
    assert_eq!(device.value(Metric::UtilizationMemory), Some(8));
    assert_eq!(device.value(Metric::MemoryInfo(MemoryState::Total)), Some(3));
    assert_eq!(device.value(Metric::Clock(ClockId::TargetAppClock, Clock::SM)), Some(1500));
    assert_eq!(device.value(Metric::Clock(ClockId::Current, Clock::Video)), None);
    assert_eq!(
        device.value(Metric::ApplicationsClock(ClockId::TargetAppClock, Clock::SM)),
        Some(1500)
    );
    assert_eq!(
        device.value(Metric::CurrentClocksThrottleReasons(
            ThrottleReason::ApplicationsClocksSetting
        )),
        Some(1)
    );
    assert_eq!(device.value(Metric::CurrentClocksThrottleReasons(ThrottleReason::GpuIdle)), Some(0));
    assert_eq!(
        device.value(Metric::MemoryErrorCounters(
            MemoryError::Uncorrected,
            EccCounter::Volatile,
            MemoryLocation::Shared
        )),
        Some(4)
    );
    assert_eq!(
        device.value(Metric::MemoryErrorCounters(
            MemoryError::Corrected,
            EccCounter::Volatile,
            MemoryLocation::Shared
        )),
        None
    );
    assert_eq!(device.clocks.get(ClockId::TargetAppClock, Clock::SM), Some(1500));
    assert_eq!(device.clocks.current.get(Clock::SM), None);
    assert!(!device.clocks.all_read());
    assert_eq!(
        counters.get(MemoryError::Uncorrected, EccCounter::Volatile, MemoryLocation::Shared),
        Some(4)
    );
    assert!(!counters.all_read());
    assert!(!counters.shared.all_read());
}

#[test]
fn ecc_state_settles_the_group_unless_ecc_is_on() {
    assert!(matches!(EccReading::settled_by(None), Some(EccReading::Failed)));
    assert!(matches!(EccReading::settled_by(Some(false)), Some(EccReading::Disabled)));
    assert!(EccReading::settled_by(Some(true)).is_none());
}

#[test]
fn encoder_group_takes_the_statistics_and_each_capacity() {
    let stats = EncoderStats { session_count: 3, average_fps: 59, average_latency: 1200 };
    let group = EncoderReadings::of(stats, Some(87), None);
    assert_eq!(group.session_count, 3);
    assert_eq!(group.average_fps, 59);
    assert_eq!(group.average_latency, 1200);
    assert_eq!(group.capacity_h264, Some(87));
    assert_eq!(group.capacity_hevc, None);
    let group = EncoderReadings::of(stats, None, Some(0));
    assert_eq!(group.capacity_h264, None);
    assert_eq!(group.capacity_hevc, Some(0));
}
