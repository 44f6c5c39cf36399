//! What a pass guarantees, proved of the registry model.
//!
//! The statements here speak of `after_pass` and of the series that the
//! readings of a device write; `gather` and `record_pass` leave the
//! registry exactly as `after_pass` says.
use vstd::prelude::*;
use vstd::set_lib::lemma_len_subset;
use crate::gather::{after_devices, after_pass};
use crate::metrics::{Family, Metric, MetricsView, Series};
use crate::readings::{
    count_ones, throttle_indicator, throttle_indicator_sum, widen, DeviceOutcome,
    DeviceReadings, EccReading, MemoryErrorReadings, PassReadings, ThrottleReading,
};
use crate::str_helpers::{
    Clock, ClockId, EccCounter, KNOWN_THROTTLE_BITS, MemoryError, MemoryLocation,
    ThrottleReason, ThrottleReasons,
};
use crate::Options;

verus! {

/// Whether a series is the same, present or absent, in two registries.
pub open spec fn kept(before: Map<Series, u64>, after: Map<Series, u64>, k: Series) -> bool {
    &&& after.contains_key(k) <==> before.contains_key(k)
    &&& before.contains_key(k) ==> after[k] == before[k]
}

/// A pass sets the device count to the enumerated count, whatever the
/// devices gave.
pub proof fn lemma_pass_sets_device_count(before: MetricsView, pass: PassReadings)
    ensures
        after_pass(before, pass).device_count == pass.count,
{
}

/// A series for which no device of a pass holds a value is after the pass
/// as it was before: no zero is written and nothing is removed.
pub proof fn lemma_unobserved_series_kept(
    values: Map<Series, u64>,
    devices: Seq<DeviceOutcome>,
    k: Series,
)
    requires
        forall|i: int|
            0 <= i < devices.len() ==> (#[trigger] devices[i] matches DeviceOutcome::Read(r) ==> r.observed(k)
                is None),
    ensures
        kept(values, after_devices(values, devices), k),
    decreases devices.len(),
{
    if devices.len() > 0 {
        let front = devices.drop_last();
        assert forall|i: int| 0 <= i < front.len() implies (#[trigger] front[i] matches DeviceOutcome::Read(r)
            ==> r.observed(k) is None) by {
            assert(front[i] == devices[i]);
        }
        lemma_unobserved_series_kept(values, front, k);
        assert(devices.last() == devices[devices.len() - 1]);
    }
}

/// A pass removes nothing: a series that the registry held before is
/// still held after, whichever devices the pass enumerated.
pub proof fn lemma_series_are_never_removed(
    values: Map<Series, u64>,
    devices: Seq<DeviceOutcome>,
    k: Series,
)
    requires
        values.contains_key(k),
    ensures
        after_devices(values, devices).contains_key(k),
    decreases devices.len(),
{
    if devices.len() > 0 {
        lemma_series_are_never_removed(values, devices.drop_last(), k);
    }
}

/// A series has after a pass the value of the last device that holds one
/// for it.
pub proof fn lemma_last_observation_stands(
    values: Map<Series, u64>,
    devices: Seq<DeviceOutcome>,
    k: Series,
    d: int,
    v: u64,
)
    requires
        0 <= d < devices.len(),
        devices[d] matches DeviceOutcome::Read(r) && r.observed(k) == Some(v),
        forall|i: int|
            d < i < devices.len() ==> (#[trigger] devices[i] matches DeviceOutcome::Read(r) ==> r.observed(k)
                is None),
    ensures
        after_devices(values, devices).contains_key(k),
        after_devices(values, devices)[k] == v,
    decreases devices.len(),
{
    let front = devices.drop_last();
    assert(devices.last() == devices[devices.len() - 1]);
    if d < devices.len() - 1 {
        assert(front[d] == devices[d]);
        assert forall|i: int| d < i < front.len() implies (#[trigger] front[i] matches DeviceOutcome::Read(r)
            ==> r.observed(k) is None) by {
            assert(front[i] == devices[i]);
        }
        lemma_last_observation_stands(values, front, k, d, v);
    }
}

/// Where a read of a resolved device failed, or its group was skipped,
/// the series of that metric on that device has after the pass the value
/// it had before, and is absent if it was absent.
pub proof fn lemma_failed_read_keeps_value(
    before: MetricsView,
    pass: PassReadings,
    opts: Options,
    d: int,
    metric: Metric,
    uuid: Seq<char>,
)
    requires
        pass.read_under(opts),
        0 <= d < pass.devices@.len(),
        pass.devices@[d] matches DeviceOutcome::Read(r) && r.value_of(metric) is None,
    ensures
        kept(
            before.values,
            after_pass(before, pass).values,
            Series { metric, device: d as u32, uuid },
        ),
{
    let k = Series { metric, device: d as u32, uuid };
    assert forall|i: int| 0 <= i < pass.devices@.len() implies (#[trigger] pass.devices@[i] matches DeviceOutcome::Read(r) ==> r.observed(k) is None) by {
        assert(pass.devices@[i].read_under(i as u32, opts));
    }
    lemma_unobserved_series_kept(before.values, pass.devices@, k);
}

/// Where a device could not be resolved, every series of its index is
/// after the pass as it was before.
pub proof fn lemma_unresolved_device_keeps_values(
    before: MetricsView,
    pass: PassReadings,
    opts: Options,
    d: int,
    metric: Metric,
    uuid: Seq<char>,
)
    requires
        pass.read_under(opts),
        0 <= d < pass.devices@.len(),
        pass.devices@[d] is Unresolved,
    ensures
        kept(
            before.values,
            after_pass(before, pass).values,
            Series { metric, device: d as u32, uuid },
        ),
{
    let k = Series { metric, device: d as u32, uuid };
    assert forall|i: int| 0 <= i < pass.devices@.len() implies (#[trigger] pass.devices@[i] matches DeviceOutcome::Read(r) ==> r.observed(k) is None) by {
        assert(pass.devices@[i].read_under(i as u32, opts));
    }
    lemma_unobserved_series_kept(before.values, pass.devices@, k);
}

/// Where a read of a resolved device succeeded, the series of that metric
/// on that device, under the UUID resolved in this pass, has after the
/// pass the value that was read.
pub proof fn lemma_read_value_is_written(
    before: MetricsView,
    pass: PassReadings,
    opts: Options,
    d: int,
    metric: Metric,
    v: u64,
)
    requires
        pass.read_under(opts),
        0 <= d < pass.devices@.len(),
        pass.devices@[d] matches DeviceOutcome::Read(r) && r.value_of(metric) == Some(v),
    ensures
        after_pass(before, pass).values.contains_key(pass.devices@[d]->Read_0.series_of(metric)),
        after_pass(before, pass).values[pass.devices@[d]->Read_0.series_of(metric)] == v,
{
    let k = pass.devices@[d]->Read_0.series_of(metric);
    assert(pass.devices@[d].read_under(d as u32, opts));
    assert forall|i: int| d < i < pass.devices@.len() implies (#[trigger] pass.devices@[i] matches DeviceOutcome::Read(r) ==> r.observed(k) is None) by {
        assert(pass.devices@[i].read_under(i as u32, opts));
    }
    lemma_last_observation_stands(before.values, pass.devices@, k, d, v);
}

/// Every series that the readings of a device write carries the index
/// and the UUID under which the device was resolved in this pass.
pub proof fn lemma_written_series_carry_device_labels(r: DeviceReadings, family: Family, k: Series)
    requires
        r.written(family).contains(k),
    ensures
        k.device == r.index,
        k.uuid == r.uuid@,
        k == r.series_of(k.metric),
{
}

/// The bits of a bitmask below bit nine, counted one by one.
proof fn lemma_count_ones_nine_bits(bits: u64)
    requires
        bits & !KNOWN_THROTTLE_BITS == 0,
    ensures
        count_ones(bits as nat) == (bits % 2) + (bits / 2 % 2) + (bits / 4 % 2) + (bits / 8 % 2) + (bits
            / 16 % 2) + (bits / 32 % 2) + (bits / 64 % 2) + (bits / 128 % 2) + (bits / 256 % 2),
{
    assert(bits < 512) by (bit_vector)
        requires
            bits & !0x1ffu64 == 0,
    ;
    let b0 = bits as nat;
    let b1 = b0 / 2;
    let b2 = b1 / 2;
    let b3 = b2 / 2;
    let b4 = b3 / 2;
    let b5 = b4 / 2;
    let b6 = b5 / 2;
    let b7 = b6 / 2;
    let b8 = b7 / 2;
    let b9 = b8 / 2;
    assert(b9 == 0);
    assert(count_ones(b9) == 0);
    assert(count_ones(b8) == b8 % 2 + count_ones(b9));
    assert(count_ones(b7) == b7 % 2 + count_ones(b8));
    assert(count_ones(b6) == b6 % 2 + count_ones(b7));
    assert(count_ones(b5) == b5 % 2 + count_ones(b6));
    assert(count_ones(b4) == b4 % 2 + count_ones(b5));
    assert(count_ones(b3) == b3 % 2 + count_ones(b4));
    assert(count_ones(b2) == b2 % 2 + count_ones(b3));
    assert(count_ones(b1) == b1 % 2 + count_ones(b2));
    assert(count_ones(b0) == b0 % 2 + count_ones(b1));
}

/// Under a bitmask that has no bit but those of the known reasons, the
/// ten indicators are each 0 or 1 and add up to the number of bits set.
pub proof fn lemma_throttle_indicators_count_set_bits(mask: ThrottleReasons)
    requires
        mask.bits & !KNOWN_THROTTLE_BITS == 0,
    ensures
        forall|reason: ThrottleReason|
            throttle_indicator(mask, reason) == 0
                || throttle_indicator(mask, reason) == 1,
        throttle_indicator_sum(mask) == count_ones(mask.bits as nat),
{
    let bits = mask.bits;
    lemma_count_ones_nine_bits(bits);
    assert((bits & 0x1 != 0) <==> bits % 2 == 1) by (bit_vector);
    assert((bits & 0x2 != 0) <==> bits / 2 % 2 == 1) by (bit_vector);
    assert((bits & 0x4 != 0) <==> bits / 4 % 2 == 1) by (bit_vector);
    assert((bits & 0x8 != 0) <==> bits / 8 % 2 == 1) by (bit_vector);
    assert((bits & 0x10 != 0) <==> bits / 16 % 2 == 1) by (bit_vector);
    assert((bits & 0x20 != 0) <==> bits / 32 % 2 == 1) by (bit_vector);
    assert((bits & 0x40 != 0) <==> bits / 64 % 2 == 1) by (bit_vector);
    assert((bits & 0x80 != 0) <==> bits / 128 % 2 == 1) by (bit_vector);
    assert((bits & 0x100 != 0) <==> bits / 256 % 2 == 1) by (bit_vector);
    assert(bits & 0 == 0) by (bit_vector);
}

/// Where the throttle-reason bitmask of a device was read, the device
/// writes exactly ten series of that family, one for each known reason,
/// each with the reason's indicator under the bitmask.
pub proof fn lemma_throttle_reasons_written(r: DeviceReadings, mask: ThrottleReasons)
    requires
        r.throttle == ThrottleReading::Read(mask),
    ensures
        r.written(Family::CurrentClocksThrottleReasons).finite(),
        r.written(Family::CurrentClocksThrottleReasons).len() == 10,
        forall|reason: ThrottleReason|
            r.written(Family::CurrentClocksThrottleReasons).contains(
                #[trigger] r.series_of(Metric::CurrentClocksThrottleReasons(reason)),
            ) && r.observed(r.series_of(Metric::CurrentClocksThrottleReasons(reason))) == Some(
                throttle_indicator(mask, reason),
            ),
{
    let ten = Set::<Series>::empty().insert(
            r.series_of(Metric::CurrentClocksThrottleReasons(ThrottleReason::GpuIdle)),
        ).insert(
            r.series_of(Metric::CurrentClocksThrottleReasons(ThrottleReason::ApplicationsClocksSetting)),
        ).insert(
            r.series_of(Metric::CurrentClocksThrottleReasons(ThrottleReason::SwPowerCap)),
        ).insert(
            r.series_of(Metric::CurrentClocksThrottleReasons(ThrottleReason::HwSlowdown)),
        ).insert(
            r.series_of(Metric::CurrentClocksThrottleReasons(ThrottleReason::SyncBoost)),
        ).insert(
            r.series_of(Metric::CurrentClocksThrottleReasons(ThrottleReason::SwThermalSlowdown)),
        ).insert(
            r.series_of(Metric::CurrentClocksThrottleReasons(ThrottleReason::HwThermalSlowdown)),
        ).insert(
            r.series_of(Metric::CurrentClocksThrottleReasons(ThrottleReason::HwPowerBrakeSlowdown)),
        ).insert(
            r.series_of(Metric::CurrentClocksThrottleReasons(ThrottleReason::DisplayClockSetting)),
        ).insert(
            r.series_of(Metric::CurrentClocksThrottleReasons(ThrottleReason::Unthrottled)),
        );
    assert(r.written(Family::CurrentClocksThrottleReasons) =~= ten);
}

/// Where a pass collects throttle reasons and read the bitmask of a
/// device, it writes ten series of the family for the device, each 0 or 1,
/// and as many of them are 1 as bits are set in the bitmask.
pub proof fn lemma_throttle_group_counts_set_bits(
    r: DeviceReadings,
    index: u32,
    opts: Options,
    mask: ThrottleReasons,
)
    requires
        r.read_under(index, opts),
        r.throttle == ThrottleReading::Read(mask),
    ensures
        opts.enable_throttle_reasons,
        r.written(Family::CurrentClocksThrottleReasons).len() == 10,
        forall|reason: ThrottleReason|
            r.observed(#[trigger] r.series_of(Metric::CurrentClocksThrottleReasons(reason)))
                == Some(0u64) || r.observed(
                r.series_of(Metric::CurrentClocksThrottleReasons(reason)),
            ) == Some(1u64),
        throttle_indicator_sum(mask) == count_ones(mask.bits as nat),
{
    lemma_throttle_reasons_written(r, mask);
    lemma_throttle_indicators_count_set_bits(mask);
}

/// Where the throttle-reason group was skipped or its read failed, the
/// device writes no series of that family.
pub proof fn lemma_throttle_reasons_unread(r: DeviceReadings)
    requires
        !(r.throttle is Read),
    ensures
        r.written(Family::CurrentClocksThrottleReasons) == Set::<Series>::empty(),
{
    assert(r.written(Family::CurrentClocksThrottleReasons) =~= Set::<Series>::empty());
}

/// Where ECC is reported off, or its state could not be read, the device
/// writes no series of the memory-error family: no group, no zeros.
pub proof fn lemma_memory_errors_unwritten_without_ecc(r: DeviceReadings)
    requires
        !(r.ecc is Enabled),
    ensures
        r.written(Family::MemoryErrorCounters) == Set::<Series>::empty(),
{
    assert(r.written(Family::MemoryErrorCounters) =~= Set::<Series>::empty());
}

/// Where ECC is on, the device writes a memory-error series exactly for
/// each counter whose read succeeded.
pub proof fn lemma_memory_errors_written(
    r: DeviceReadings,
    counters: MemoryErrorReadings,
    error: MemoryError,
    counter: EccCounter,
    location: MemoryLocation,
)
    requires
        r.ecc == EccReading::Enabled(counters),
    ensures
        r.written(Family::MemoryErrorCounters).contains(
            r.series_of(Metric::MemoryErrorCounters(error, counter, location)),
        ) <==> counters.spec_get(error, counter, location) is Some,
{
}

spec fn clock_series(r: DeviceReadings) -> Set<Series> {
    Set::<Series>::empty().insert(
        r.series_of(Metric::Clock(ClockId::Current, Clock::Graphics)),
    ).insert(
        r.series_of(Metric::Clock(ClockId::Current, Clock::SM)),
    ).insert(
        r.series_of(Metric::Clock(ClockId::Current, Clock::Memory)),
    ).insert(
        r.series_of(Metric::Clock(ClockId::Current, Clock::Video)),
    ).insert(
        r.series_of(Metric::Clock(ClockId::TargetAppClock, Clock::Graphics)),
    ).insert(
        r.series_of(Metric::Clock(ClockId::TargetAppClock, Clock::SM)),
    ).insert(
        r.series_of(Metric::Clock(ClockId::TargetAppClock, Clock::Memory)),
    ).insert(
        r.series_of(Metric::Clock(ClockId::TargetAppClock, Clock::Video)),
    ).insert(
        r.series_of(Metric::Clock(ClockId::DefaultAppClock, Clock::Graphics)),
    ).insert(
        r.series_of(Metric::Clock(ClockId::DefaultAppClock, Clock::SM)),
    ).insert(
        r.series_of(Metric::Clock(ClockId::DefaultAppClock, Clock::Memory)),
    ).insert(
        r.series_of(Metric::Clock(ClockId::DefaultAppClock, Clock::Video)),
    ).insert(
        r.series_of(Metric::Clock(ClockId::CustomerMaxBoost, Clock::Graphics)),
    ).insert(
        r.series_of(Metric::Clock(ClockId::CustomerMaxBoost, Clock::SM)),
    ).insert(
        r.series_of(Metric::Clock(ClockId::CustomerMaxBoost, Clock::Memory)),
    ).insert(
        r.series_of(Metric::Clock(ClockId::CustomerMaxBoost, Clock::Video)),
    )
}

/// A device writes at most sixteen series of the clock family: one for
/// each clock id and clock domain whose read succeeded, none for one whose
/// read failed.
pub proof fn lemma_clocks_written(r: DeviceReadings)
    ensures
        r.written(Family::Clock).finite(),
        r.written(Family::Clock).len() <= 16,
        forall|id: ClockId, clock: Clock|
            r.written(Family::Clock).contains(#[trigger] r.series_of(Metric::Clock(id, clock)))
                <==> r.clocks.spec_get(id, clock) is Some,
        forall|k: Series|
            r.written(Family::Clock).contains(k) ==> (k.metric matches Metric::Clock(id, clock)
                && widen(r.clocks.spec_get(id, clock)) == r.observed(k)),
{
    let all = clock_series(r);
    assert(all.finite());
    assert(all.len() <= 16);
    assert(r.written(Family::Clock).subset_of(all));
    lemma_len_subset(r.written(Family::Clock), all);
}

spec fn applications_clock_series(r: DeviceReadings) -> Set<Series> {
    Set::<Series>::empty().insert(
        r.series_of(Metric::ApplicationsClock(ClockId::Current, Clock::Graphics)),
    ).insert(
        r.series_of(Metric::ApplicationsClock(ClockId::Current, Clock::SM)),
    ).insert(
        r.series_of(Metric::ApplicationsClock(ClockId::Current, Clock::Memory)),
    ).insert(
        r.series_of(Metric::ApplicationsClock(ClockId::Current, Clock::Video)),
    ).insert(
        r.series_of(Metric::ApplicationsClock(ClockId::TargetAppClock, Clock::Graphics)),
    ).insert(
        r.series_of(Metric::ApplicationsClock(ClockId::TargetAppClock, Clock::SM)),
    ).insert(
        r.series_of(Metric::ApplicationsClock(ClockId::TargetAppClock, Clock::Memory)),
    ).insert(
        r.series_of(Metric::ApplicationsClock(ClockId::TargetAppClock, Clock::Video)),
    ).insert(
        r.series_of(Metric::ApplicationsClock(ClockId::DefaultAppClock, Clock::Graphics)),
    ).insert(
        r.series_of(Metric::ApplicationsClock(ClockId::DefaultAppClock, Clock::SM)),
    ).insert(
        r.series_of(Metric::ApplicationsClock(ClockId::DefaultAppClock, Clock::Memory)),
    ).insert(
        r.series_of(Metric::ApplicationsClock(ClockId::DefaultAppClock, Clock::Video)),
    ).insert(
        r.series_of(Metric::ApplicationsClock(ClockId::CustomerMaxBoost, Clock::Graphics)),
    ).insert(
        r.series_of(Metric::ApplicationsClock(ClockId::CustomerMaxBoost, Clock::SM)),
    ).insert(
        r.series_of(Metric::ApplicationsClock(ClockId::CustomerMaxBoost, Clock::Memory)),
    ).insert(
        r.series_of(Metric::ApplicationsClock(ClockId::CustomerMaxBoost, Clock::Video)),
    )
}

/// A device writes at most sixteen series of the applications-clock family: one for
/// each clock id and clock domain whose read succeeded, none for one whose
/// read failed.
pub proof fn lemma_applications_clocks_written(r: DeviceReadings)
    ensures
        r.written(Family::ApplicationsClock).finite(),
        r.written(Family::ApplicationsClock).len() <= 16,
        forall|id: ClockId, clock: Clock|
            r.written(Family::ApplicationsClock).contains(#[trigger] r.series_of(Metric::ApplicationsClock(id, clock)))
                <==> r.clocks.spec_get(id, clock) is Some,
        forall|k: Series|
            r.written(Family::ApplicationsClock).contains(k) ==> (k.metric matches Metric::ApplicationsClock(id, clock)
                && widen(r.clocks.spec_get(id, clock)) == r.observed(k)),
{
    let all = applications_clock_series(r);
    assert(all.finite());
    assert(all.len() <= 16);
    assert(r.written(Family::ApplicationsClock).subset_of(all));
    lemma_len_subset(r.written(Family::ApplicationsClock), all);
}

} // verus!
