//! The gather engine: one pass over the devices, written into the
//! registry.
//!
//! A pass reads every enabled metric of every enumerated device. A read
//! that fails leaves its series as it was; only a failed enumeration ends
//! the pass, before anything is written.
use vstd::prelude::*;
use nvml_wrapper::{Device, Nvml};
use crate::metrics::{Family, Metric, Metrics, MetricsView, Series, Snapshot};
use crate::readings::{
    EncoderType, flag_value, throttle_indicator, widen, ClockReadings, ClockSpeeds, DeviceOutcome,
    DeviceReadings, EccReading, EncoderReadings, ErrorCounts, MemoryErrorReadings, PassReadings,
    ScopedErrorCounts, ThrottleReading,
};
use crate::source;
use crate::str_helpers::{
    Clock, ClockId, EccCounter, KNOWN_THROTTLE_BITS, MemoryError, MemoryLocation, MemoryState,
    ThrottleReason,
};
use crate::Options;

verus! {

/// Why a pass, or a part of it, did not come about.
#[derive(Clone, Copy, Debug, PartialEq, Eq, Structural)]
pub enum GatherError {
    /// The devices could not be enumerated; the pass wrote nothing.
    DeviceSourceUnavailable,
    /// The device at this index could not be resolved and was skipped.
    DeviceResolutionFailed { index: u32 },
    /// A read for this family failed on this device; the series it would
    /// have written keep their earlier values.
    MetricReadFailed { device: u32, family: Family },
}

/// The registry values after the readings of one device were written
/// over `values`: a series that the readings hold a value for has that
/// value, every other series is as before.
pub open spec fn after_device(values: Map<Series, u64>, r: DeviceReadings) -> Map<Series, u64> {
    Map::new(
        |k: Series| values.contains_key(k) || r.observed(k) is Some,
        |k: Series|
            match r.observed(k) {
                Some(v) => v,
                None => values[k],
            },
    )
}

/// The registry values after the devices of a pass were written in turn.
pub open spec fn after_devices(
    values: Map<Series, u64>,
    devices: Seq<DeviceOutcome>,
) -> Map<Series, u64>
    decreases devices.len(),
{
    if devices.len() == 0 {
        values
    } else {
        let before = after_devices(values, devices.drop_last());
        match devices.last() {
            DeviceOutcome::Read(r) => after_device(before, r),
            DeviceOutcome::Unresolved { .. } => before,
        }
    }
}

/// The registry after a pass: the device count is the enumerated count,
/// and the devices were written in turn.
pub open spec fn after_pass(before: MetricsView, pass: PassReadings) -> MetricsView {
    MetricsView {
        device_count: pass.count,
        values: after_devices(before.values, pass.devices@),
    }
}

/// `after_device`, for the metrics in `scope` only.
#[verifier::opaque]
spec fn overlay(values: Map<Series, u64>, r: DeviceReadings, scope: Set<Metric>) -> Map<
    Series,
    u64,
> {
    Map::new(
        |k: Series| values.contains_key(k) || (scope.contains(k.metric) && r.observed(k) is Some),
        |k: Series|
            if scope.contains(k.metric) && r.observed(k) is Some {
                r.observed(k)->0
            } else {
                values[k]
            },
    )
}

proof fn lemma_overlay_empty(values: Map<Series, u64>, r: DeviceReadings)
    ensures
        overlay(values, r, Set::empty()) == values,
{
    reveal(overlay);
    assert(overlay(values, r, Set::empty()) =~= values);
}

proof fn lemma_overlay_union(values: Map<Series, u64>, r: DeviceReadings, a: Set<Metric>, b: Set<Metric>)
    ensures
        overlay(overlay(values, r, a), r, b) == overlay(values, r, a.union(b)),
{
    reveal(overlay);
    assert(overlay(overlay(values, r, a), r, b) =~= overlay(values, r, a.union(b)));
}

proof fn lemma_overlay_full(values: Map<Series, u64>, r: DeviceReadings)
    ensures
        overlay(values, r, Set::full()) == after_device(values, r),
{
    reveal(overlay);
    assert(overlay(values, r, Set::full()) =~= after_device(values, r));
}

proof fn lemma_overlay_nothing(values: Map<Series, u64>, r: DeviceReadings, scope: Set<Metric>)
    requires
        forall|m: Metric| scope.contains(m) ==> r.value_of(m) is None,
    ensures
        overlay(values, r, scope) == values,
{
    reveal(overlay);
    assert(overlay(values, r, scope) =~= values);
}

spec fn error_pair(counter: EccCounter, location: MemoryLocation) -> Set<Metric> {
    Set::new(
        |m: Metric| m matches Metric::MemoryErrorCounters(_, c, l) && c == counter && l == location,
    )
}

spec fn scalar_metrics() -> Set<Metric> {
    Set::new(
        |m: Metric|
            !(m is Clock) && !(m is ApplicationsClock) && !(m is CurrentClocksThrottleReasons) && !(m
                is MemoryErrorCounters),
    )
}

spec fn clock_row(id: ClockId, applications: bool) -> Set<Metric> {
    Set::new(
        |m: Metric|
            if applications {
                m matches Metric::ApplicationsClock(i, _) && i == id
            } else {
                m matches Metric::Clock(i, _) && i == id
            },
    )
}

spec fn clock_table(applications: bool) -> Set<Metric> {
    Set::new(
        |m: Metric|
            if applications {
                m is ApplicationsClock
            } else {
                m is Clock
            },
    )
}

spec fn throttle_metrics() -> Set<Metric> {
    Set::new(|m: Metric| m is CurrentClocksThrottleReasons)
}

spec fn error_location(location: MemoryLocation) -> Set<Metric> {
    Set::new(|m: Metric| m matches Metric::MemoryErrorCounters(_, _, l) && l == location)
}

spec fn error_metrics() -> Set<Metric> {
    Set::new(|m: Metric| m is MemoryErrorCounters)
}

/// Writes one metric of a device: the value that the readings hold for
/// it, or nothing where they hold none.
fn put(
    metrics: &mut Metrics,
    r: &DeviceReadings,
    metric: Metric,
    Ghost(start): Ghost<Map<Series, u64>>,
    Ghost(done): Ghost<Set<Metric>>,
) -> (next: Ghost<Set<Metric>>)
    requires
        old(metrics)@.values == overlay(start, *r, done),
    ensures
        next@ == done.insert(metric),
        final(metrics)@.device_count == old(metrics)@.device_count,
        final(metrics)@.values == overlay(start, *r, done.insert(metric)),
{
    metrics.record(metric, r.index, &r.uuid, r.value(metric));
    proof {
        reveal(overlay);
        assert(metrics@.values =~= overlay(start, *r, done.insert(metric)));
    }
    Ghost(done.insert(metric))
}

/// Writes the series that carry the device labels alone, and the memory
/// states: each scalar read on its own, each structured read whole.
fn record_scalars(metrics: &mut Metrics, r: &DeviceReadings)
    ensures
        final(metrics)@.device_count == old(metrics)@.device_count,
        final(metrics)@.values == overlay(old(metrics)@.values, *r, scalar_metrics()),
{
    let ghost start = metrics@.values;
    let done: Ghost<Set<Metric>> = Ghost(Set::empty());
    proof {
        lemma_overlay_empty(start, *r);
    }
    let done = put(metrics, r, Metric::Temperature, Ghost(start), done);
    let done = put(metrics, r, Metric::PowerUsage, Ghost(start), done);
    let done = put(metrics, r, Metric::RunningComputeProcessesCount, Ghost(start), done);
    let done = put(metrics, r, Metric::RunningGraphicsProcessesCount, Ghost(start), done);
    let done = put(metrics, r, Metric::CurrentPcieLinkWidth, Ghost(start), done);
    let done = put(metrics, r, Metric::CurrentPcieLinkGeneration, Ghost(start), done);
    let done = put(metrics, r, Metric::MaxPcieLinkWidth, Ghost(start), done);
    let done = put(metrics, r, Metric::MaxPcieLinkGeneration, Ghost(start), done);
    let done = put(metrics, r, Metric::DisplayActive, Ghost(start), done);
    let done = put(metrics, r, Metric::DisplayMode, Ghost(start), done);
    let done = put(metrics, r, Metric::UtilizationGpu, Ghost(start), done);
    let done = put(metrics, r, Metric::UtilizationMemory, Ghost(start), done);
    let done = put(metrics, r, Metric::EncoderCapacityH264, Ghost(start), done);
    let done = put(metrics, r, Metric::EncoderCapacityHevc, Ghost(start), done);
    let done = put(metrics, r, Metric::EncoderStatsSessionsCount, Ghost(start), done);
    let done = put(metrics, r, Metric::EncoderStatsAverageFps, Ghost(start), done);
    let done = put(metrics, r, Metric::EncoderStatsAverageLatency, Ghost(start), done);
    let done = put(metrics, r, Metric::FbcStatsSessionsCount, Ghost(start), done);
    let done = put(metrics, r, Metric::FbcStatsAverageFps, Ghost(start), done);
    let done = put(metrics, r, Metric::FbcStatsAverageLatency, Ghost(start), done);
    let done = put(metrics, r, Metric::MemoryInfo(MemoryState::Free), Ghost(start), done);
    let done = put(metrics, r, Metric::MemoryInfo(MemoryState::Total), Ghost(start), done);
    let done = put(metrics, r, Metric::MemoryInfo(MemoryState::Used), Ghost(start), done);
    assert(done@ =~= scalar_metrics());
}

/// Writes the four clock domains of one clock id.
fn record_clock_row(metrics: &mut Metrics, r: &DeviceReadings, id: ClockId, applications: bool)
    ensures
        final(metrics)@.device_count == old(metrics)@.device_count,
        final(metrics)@.values == overlay(old(metrics)@.values, *r, clock_row(id, applications)),
{
    let ghost start = metrics@.values;
    let done: Ghost<Set<Metric>> = Ghost(Set::empty());
    proof {
        lemma_overlay_empty(start, *r);
    }
    if applications {
        let done = put(
            metrics,
            r,
            Metric::ApplicationsClock(id, Clock::Graphics),
            Ghost(start),
            done,
        );
        let done = put(metrics, r, Metric::ApplicationsClock(id, Clock::SM), Ghost(start), done);
        let done = put(
            metrics,
            r,
            Metric::ApplicationsClock(id, Clock::Memory),
            Ghost(start),
            done,
        );
        let done = put(metrics, r, Metric::ApplicationsClock(id, Clock::Video), Ghost(start), done);
        assert(done@ =~= clock_row(id, applications));
    } else {
        let done = put(metrics, r, Metric::Clock(id, Clock::Graphics), Ghost(start), done);
        let done = put(metrics, r, Metric::Clock(id, Clock::SM), Ghost(start), done);
        let done = put(metrics, r, Metric::Clock(id, Clock::Memory), Ghost(start), done);
        let done = put(metrics, r, Metric::Clock(id, Clock::Video), Ghost(start), done);
        assert(done@ =~= clock_row(id, applications));
    }
}

/// Writes one clock family: every clock id and clock domain whose read
/// succeeded.
fn record_clocks(metrics: &mut Metrics, r: &DeviceReadings, applications: bool)
    ensures
        final(metrics)@.device_count == old(metrics)@.device_count,
        final(metrics)@.values == overlay(old(metrics)@.values, *r, clock_table(applications)),
{
    let ghost start = metrics@.values;
    record_clock_row(metrics, r, ClockId::Current, applications);
    record_clock_row(metrics, r, ClockId::TargetAppClock, applications);
    record_clock_row(metrics, r, ClockId::DefaultAppClock, applications);
    record_clock_row(metrics, r, ClockId::CustomerMaxBoost, applications);
    proof {
        let a = clock_row(ClockId::Current, applications);
        let b = clock_row(ClockId::TargetAppClock, applications);
        let c = clock_row(ClockId::DefaultAppClock, applications);
        let d = clock_row(ClockId::CustomerMaxBoost, applications);
        lemma_overlay_union(start, *r, a, b);
        lemma_overlay_union(start, *r, a.union(b), c);
        lemma_overlay_union(start, *r, a.union(b).union(c), d);
        assert(a.union(b).union(c).union(d) =~= clock_table(applications));
    }
}

/// Writes the throttle-reason group: one indicator for each of the ten
/// reasons where the bitmask was read, nothing otherwise.
fn record_throttle_reasons(metrics: &mut Metrics, r: &DeviceReadings)
    ensures
        final(metrics)@.device_count == old(metrics)@.device_count,
        final(metrics)@.values == overlay(old(metrics)@.values, *r, throttle_metrics()),
{
    let ghost start = metrics@.values;
    match r.throttle {
        ThrottleReading::Read(mask) => {
            let done: Ghost<Set<Metric>> = Ghost(Set::empty());
            proof {
                lemma_overlay_empty(start, *r);
            }
            let done = put(
                metrics,
                r,
                Metric::CurrentClocksThrottleReasons(ThrottleReason::GpuIdle),
                Ghost(start),
                done,
            );
            let done = put(
                metrics,
                r,
                Metric::CurrentClocksThrottleReasons(ThrottleReason::ApplicationsClocksSetting),
                Ghost(start),
                done,
            );
            let done = put(
                metrics,
                r,
                Metric::CurrentClocksThrottleReasons(ThrottleReason::SwPowerCap),
                Ghost(start),
                done,
            );
            let done = put(
                metrics,
                r,
                Metric::CurrentClocksThrottleReasons(ThrottleReason::HwSlowdown),
                Ghost(start),
                done,
            );
            let done = put(
                metrics,
                r,
                Metric::CurrentClocksThrottleReasons(ThrottleReason::SyncBoost),
                Ghost(start),
                done,
            );
            let done = put(
                metrics,
                r,
                Metric::CurrentClocksThrottleReasons(ThrottleReason::SwThermalSlowdown),
                Ghost(start),
                done,
            );
            let done = put(
                metrics,
                r,
                Metric::CurrentClocksThrottleReasons(ThrottleReason::HwThermalSlowdown),
                Ghost(start),
                done,
            );
            let done = put(
                metrics,
                r,
                Metric::CurrentClocksThrottleReasons(ThrottleReason::HwPowerBrakeSlowdown),
                Ghost(start),
                done,
            );
            let done = put(
                metrics,
                r,
                Metric::CurrentClocksThrottleReasons(ThrottleReason::DisplayClockSetting),
                Ghost(start),
                done,
            );
            let done = put(
                metrics,
                r,
                Metric::CurrentClocksThrottleReasons(ThrottleReason::Unthrottled),
                Ghost(start),
                done,
            );
            assert(done@ =~= throttle_metrics());
        },
        _ => {
            proof {
                lemma_overlay_nothing(start, *r, throttle_metrics());
            }
        },
    }
}

/// Writes the two error types of one memory location and counter scope.
fn record_error_counts(
    metrics: &mut Metrics,
    r: &DeviceReadings,
    counter: EccCounter,
    location: MemoryLocation,
)
    ensures
        final(metrics)@.device_count == old(metrics)@.device_count,
        final(metrics)@.values == overlay(
            old(metrics)@.values,
            *r,
            error_pair(counter, location),
        ),
{
    let ghost start = metrics@.values;
    let done: Ghost<Set<Metric>> = Ghost(Set::empty());
    proof {
        lemma_overlay_empty(start, *r);
    }
    let done = put(
        metrics,
        r,
        Metric::MemoryErrorCounters(MemoryError::Corrected, counter, location),
        Ghost(start),
        done,
    );
    let done = put(
        metrics,
        r,
        Metric::MemoryErrorCounters(MemoryError::Uncorrected, counter, location),
        Ghost(start),
        done,
    );
    assert(done@ =~= error_pair(counter, location));
}

/// Writes the counters of one memory location.
fn record_error_location(metrics: &mut Metrics, r: &DeviceReadings, location: MemoryLocation)
    ensures
        final(metrics)@.device_count == old(metrics)@.device_count,
        final(metrics)@.values == overlay(old(metrics)@.values, *r, error_location(location)),
{
    let ghost start = metrics@.values;
    record_error_counts(metrics, r, EccCounter::Aggregate, location);
    record_error_counts(metrics, r, EccCounter::Volatile, location);
    proof {
        let a = error_pair(EccCounter::Aggregate, location);
        let b = error_pair(EccCounter::Volatile, location);
        lemma_overlay_union(start, *r, a, b);
        assert(a.union(b) =~= error_location(location));
    }
}

/// Writes the memory-error group: every counter whose read succeeded
/// where ECC is on, nothing otherwise.
fn record_memory_errors(metrics: &mut Metrics, r: &DeviceReadings)
    ensures
        final(metrics)@.device_count == old(metrics)@.device_count,
        final(metrics)@.values == overlay(old(metrics)@.values, *r, error_metrics()),
{
    let ghost start = metrics@.values;
    match &r.ecc {
        EccReading::Enabled(_) => {
            record_error_location(metrics, r, MemoryLocation::Cbu);
            record_error_location(metrics, r, MemoryLocation::Device);
            record_error_location(metrics, r, MemoryLocation::L1Cache);
            record_error_location(metrics, r, MemoryLocation::L2Cache);
            record_error_location(metrics, r, MemoryLocation::RegisterFile);
            record_error_location(metrics, r, MemoryLocation::Shared);
            record_error_location(metrics, r, MemoryLocation::SRAM);
            record_error_location(metrics, r, MemoryLocation::Texture);
            proof {
                let s1 = error_location(MemoryLocation::Cbu);
                let s2 = s1.union(error_location(MemoryLocation::Device));
                let s3 = s2.union(error_location(MemoryLocation::L1Cache));
                let s4 = s3.union(error_location(MemoryLocation::L2Cache));
                let s5 = s4.union(error_location(MemoryLocation::RegisterFile));
                let s6 = s5.union(error_location(MemoryLocation::Shared));
                let s7 = s6.union(error_location(MemoryLocation::SRAM));
                let s8 = s7.union(error_location(MemoryLocation::Texture));
                lemma_overlay_union(start, *r, s1, error_location(MemoryLocation::Device));
                lemma_overlay_union(start, *r, s2, error_location(MemoryLocation::L1Cache));
                lemma_overlay_union(start, *r, s3, error_location(MemoryLocation::L2Cache));
                lemma_overlay_union(start, *r, s4, error_location(MemoryLocation::RegisterFile));
                lemma_overlay_union(start, *r, s5, error_location(MemoryLocation::Shared));
                lemma_overlay_union(start, *r, s6, error_location(MemoryLocation::SRAM));
                lemma_overlay_union(start, *r, s7, error_location(MemoryLocation::Texture));
                assert(s8 =~= error_metrics());
            }
        },
        _ => {
            proof {
                lemma_overlay_nothing(start, *r, error_metrics());
            }
        },
    }
}

/// Writes everything that one device's readings hold into the registry.
///
/// Every series of the device whose read succeeded takes the value read;
/// every other series, of this device or another, stays as it was. The
/// device count is not touched.
pub fn record_device(metrics: &mut Metrics, r: &DeviceReadings)
    ensures
        final(metrics)@.device_count == old(metrics)@.device_count,
        final(metrics)@.values == after_device(old(metrics)@.values, *r),
{
    let ghost start = metrics@.values;
    record_scalars(metrics, r);
    record_clocks(metrics, r, false);
    record_clocks(metrics, r, true);
    record_throttle_reasons(metrics, r);
    record_memory_errors(metrics, r);
    proof {
        let s1 = scalar_metrics();
        let s2 = s1.union(clock_table(false));
        let s3 = s2.union(clock_table(true));
        let s4 = s3.union(throttle_metrics());
        let s5 = s4.union(error_metrics());
        lemma_overlay_union(start, *r, s1, clock_table(false));
        lemma_overlay_union(start, *r, s2, clock_table(true));
        lemma_overlay_union(start, *r, s3, throttle_metrics());
        lemma_overlay_union(start, *r, s4, error_metrics());
        assert(s5 =~= Set::<Metric>::full());
        lemma_overlay_full(start, *r);
    }
}

/// Writes a whole pass into the registry: the device count, then the
/// devices in turn; a device that was not resolved writes nothing.
pub fn record_pass(metrics: &mut Metrics, pass: &PassReadings)
    ensures
        final(metrics)@ == after_pass(old(metrics)@, *pass),
{
    let ghost start = metrics@;
    metrics.set_device_count(pass.count);
    let mut i: usize = 0;
    while i < pass.devices.len()
        invariant
            i <= pass.devices@.len(),
            metrics@.device_count == pass.count,
            metrics@.values == after_devices(start.values, pass.devices@.take(i as int)),
        decreases pass.devices@.len() - i,
    {
        proof {
            assert(pass.devices@.take(i + 1).drop_last() =~= pass.devices@.take(i as int));
        }
        match &pass.devices[i] {
            DeviceOutcome::Read(r) => record_device(metrics, r),
            DeviceOutcome::Unresolved { .. } => {},
        }
        i += 1;
    }
    proof {
        assert(pass.devices@.take(i as int) =~= pass.devices@);
    }
}

impl DeviceReadings {
    /// Whether these readings can have come from a pass under `opts` over
    /// the device at `index`: the throttle-reason group is skipped exactly
    /// where its collection is off, and a bitmask that was read has no bit
    /// but those of the known reasons.
    pub open spec fn read_under(self, index: u32, opts: Options) -> bool {
        &&& self.index == index
        &&& self.throttle is Skipped <==> !opts.enable_throttle_reasons
        &&& self.throttle matches ThrottleReading::Read(mask) ==> mask.bits & !KNOWN_THROTTLE_BITS == 0
    }
}

impl DeviceOutcome {
    /// Whether this can be the outcome of a pass under `opts` for the
    /// device at `index`.
    pub open spec fn read_under(self, index: u32, opts: Options) -> bool {
        match self {
            DeviceOutcome::Read(r) => r.read_under(index, opts),
            DeviceOutcome::Unresolved { index: skipped } => skipped == index,
        }
    }
}

impl PassReadings {
    /// Whether this is what a pass under `opts` can have read: one outcome
    /// for each enumerated index, each under its own index.
    pub open spec fn read_under(self, opts: Options) -> bool {
        &&& self.devices@.len() == self.count
        &&& forall|i: int|
            0 <= i < self.devices@.len() ==> (#[trigger] self.devices@[i]).read_under(i as u32, opts)
    }
}

fn read_clock_speeds(device: &Device, id: ClockId) -> ClockSpeeds {
    ClockSpeeds {
        graphics: source::clock(device, Clock::Graphics, id).ok(),
        sm: source::clock(device, Clock::SM, id).ok(),
        memory: source::clock(device, Clock::Memory, id).ok(),
        video: source::clock(device, Clock::Video, id).ok(),
    }
}

fn read_clocks(device: &Device) -> ClockReadings {
    ClockReadings {
        current: read_clock_speeds(device, ClockId::Current),
        target_app_clock: read_clock_speeds(device, ClockId::TargetAppClock),
        default_app_clock: read_clock_speeds(device, ClockId::DefaultAppClock),
        customer_max_boost: read_clock_speeds(device, ClockId::CustomerMaxBoost),
    }
}

fn read_encoder(device: &Device) -> Option<EncoderReadings> {
    match source::encoder_stats(device) {
        Ok(stats) => Some(
            EncoderReadings::of(
                stats,
                source::encoder_capacity(device, EncoderType::H264).ok(),
                source::encoder_capacity(device, EncoderType::HEVC).ok(),
            ),
        ),
        Err(_) => None,
    }
}

fn read_throttle(device: &Device, opts: Options) -> (reading: ThrottleReading)
    ensures
        reading is Skipped <==> !opts.enable_throttle_reasons,
        reading matches ThrottleReading::Read(mask) ==> mask.bits & !KNOWN_THROTTLE_BITS == 0,
{
    if opts.enable_throttle_reasons {
        match source::current_throttle_reasons(device) {
            Ok(mask) => ThrottleReading::Read(mask),
            Err(_) => ThrottleReading::Failed,
        }
    } else {
        ThrottleReading::Skipped
    }
}

fn read_error_counts(device: &Device, counter: EccCounter, location: MemoryLocation) -> ErrorCounts {
    ErrorCounts {
        corrected: source::memory_error_counter(device, MemoryError::Corrected, counter, location).ok(),
        uncorrected: source::memory_error_counter(
            device,
            MemoryError::Uncorrected,
            counter,
            location,
        ).ok(),
    }
}

fn read_error_location(device: &Device, location: MemoryLocation) -> ScopedErrorCounts {
    ScopedErrorCounts {
        aggregate: read_error_counts(device, EccCounter::Aggregate, location),
        volatile: read_error_counts(device, EccCounter::Volatile, location),
    }
}

fn read_ecc(device: &Device) -> EccReading {
    match EccReading::settled_by(source::is_ecc_enabled(device).ok()) {
        Some(settled) => settled,
        None => EccReading::Enabled(
            MemoryErrorReadings {
                cbu: read_error_location(device, MemoryLocation::Cbu),
                device: read_error_location(device, MemoryLocation::Device),
                l1_cache: read_error_location(device, MemoryLocation::L1Cache),
                l2_cache: read_error_location(device, MemoryLocation::L2Cache),
                register_file: read_error_location(device, MemoryLocation::RegisterFile),
                shared: read_error_location(device, MemoryLocation::Shared),
                sram: read_error_location(device, MemoryLocation::SRAM),
                texture: read_error_location(device, MemoryLocation::Texture),
            },
        ),
    }
}

/// Reads one device: resolves its handle and UUID, then makes every read
/// that `opts` enables, each on its own.
///
/// The device is `Unresolved` where its handle or its UUID could not be
/// had. The throttle-reason bitmask is read only where its collection is
/// on, and the memory-error counters only where the device reports ECC on.
pub fn read_device(nvml: &Nvml, index: u32, opts: Options) -> (outcome: DeviceOutcome)
    ensures
        outcome.read_under(index, opts),
{
    let device = match source::device_by_index(nvml, index) {
        Ok(device) => device,
        Err(_) => {
            return DeviceOutcome::Unresolved { index };
        },
    };
    let uuid = match source::uuid(&device) {
        Ok(uuid) => uuid,
        Err(_) => {
            return DeviceOutcome::Unresolved { index };
        },
    };
    DeviceOutcome::Read(
        DeviceReadings {
            index,
            uuid,
            temperature: source::temperature(&device).ok(),
            power_usage: source::power_usage(&device).ok(),
            running_compute_processes_count: source::running_compute_processes_count(&device).ok(),
            running_graphics_processes_count: source::running_graphics_processes_count(
                &device,
            ).ok(),
            current_pcie_link_width: source::current_pcie_link_width(&device).ok(),
            current_pcie_link_gen: source::current_pcie_link_gen(&device).ok(),
            max_pcie_link_width: source::max_pcie_link_width(&device).ok(),
            max_pcie_link_gen: source::max_pcie_link_gen(&device).ok(),
            display_active: source::is_display_active(&device).ok(),
            display_connected: source::is_display_connected(&device).ok(),
            utilization: source::utilization_rates(&device).ok(),
            encoder: read_encoder(&device),
            fbc: source::fbc_stats(&device).ok(),
            memory: source::memory_info(&device).ok(),
            clocks: read_clocks(&device),
            throttle: read_throttle(&device, opts),
            ecc: read_ecc(&device),
        },
    )
}

/// Begins a pass with the outcome of the enumeration: sets the device
/// count where the devices were counted, and ends the pass with
/// `DeviceSourceUnavailable`, the registry untouched, where they were not.
pub fn begin_pass(metrics: &mut Metrics, enumerated: Option<u32>) -> (res: Result<u32, GatherError>)
    ensures
        match enumerated {
            Some(count) => res == Ok::<u32, GatherError>(count) && final(metrics)@ == (MetricsView {
                device_count: count,
                values: old(metrics)@.values,
            }),
            None => res == Err::<u32, GatherError>(GatherError::DeviceSourceUnavailable)
                && final(metrics)@ == old(metrics)@,
        },
{
    match enumerated {
        Some(count) => {
            metrics.set_device_count(count);
            Ok(count)
        },
        None => Err(GatherError::DeviceSourceUnavailable),
    }
}

/// Makes one pass: enumerates the devices, reads each in turn and writes
/// what was read into the registry.
///
/// Where the enumeration fails the pass ends with
/// `DeviceSourceUnavailable` and the registry is as it was. In every other
/// case the pass succeeds, however many reads failed, and hands back what
/// it read: the registry is then exactly what `after_pass` makes of those
/// readings.
pub fn gather(nvml: &Nvml, metrics: &mut Metrics, opts: Options) -> (res: Result<
    PassReadings,
    GatherError,
>)
    ensures
        match res {
            Ok(pass) => pass.read_under(opts) && final(metrics)@ == after_pass(old(metrics)@, pass),
            Err(e) => e == GatherError::DeviceSourceUnavailable && final(metrics)@ == old(metrics)@,
        },
{
    let ghost start = metrics@;
    let count: u32 = match begin_pass(metrics, source::device_count(nvml).ok()) {
        Ok(count) => count,
        Err(e) => {
            return Err(e);
        },
    };
    let mut devices: Vec<DeviceOutcome> = Vec::new();
    let mut index: u32 = 0;
    while index < count
        invariant
            index <= count,
            devices@.len() == index,
            metrics@.device_count == count,
            metrics@.values == after_devices(start.values, devices@),
            forall|i: int| 0 <= i < devices@.len() ==> (#[trigger] devices@[i]).read_under(i as u32, opts),
        decreases count - index,
    {
        let readings = read_device(nvml, index, opts);
        match &readings {
            DeviceOutcome::Read(r) => record_device(metrics, r),
            DeviceOutcome::Unresolved { .. } => {},
        }
        proof {
            assert(devices@.push(readings).drop_last() =~= devices@);
        }
        devices.push(readings);
        index += 1;
    }
    Ok(PassReadings { count, devices })
}

/// The answer to one scrape: the registry as it stood after the pass,
/// and how the pass went.
#[derive(Debug)]
pub struct Scrape {
    pub snapshot: Snapshot,
    pub outcome: Result<PassReadings, GatherError>,
}

/// Answers one scrape request: makes a pass, then takes the snapshot to
/// export.
///
/// A snapshot is handed back in every case. Where the pass could not
/// enumerate the devices the snapshot shows the registry as it was before
/// the request, and the error is handed back beside it.
pub fn scrape(nvml: &Nvml, metrics: &mut Metrics, opts: Options) -> (answer: Scrape)
    ensures
        answer.snapshot.shows(final(metrics)@),
        match answer.outcome {
            Ok(pass) => pass.read_under(opts) && final(metrics)@ == after_pass(old(metrics)@, pass),
            Err(e) => e == GatherError::DeviceSourceUnavailable && final(metrics)@ == old(metrics)@,
        },
{
    let outcome = gather(nvml, metrics, opts);
    let snapshot = metrics.snapshot();
    Scrape { snapshot, outcome }
}

} // verus!
