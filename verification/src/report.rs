//! What went wrong in a pass without ending it, for the caller to log.
use vstd::prelude::*;
use crate::gather::GatherError;
use crate::metrics::{all_families, Family, Metric};
use crate::readings::{DeviceOutcome, DeviceReadings, EccReading, PassReadings, ThrottleReading};
use crate::str_helpers::{
    Clock, ClockId, EccCounter, MemoryError, MemoryLocation, MemoryState, ThrottleReason,
};

verus! {

impl DeviceReadings {
    /// Whether a read that a family depends on failed: the readings hold
    /// no value for a series of the family, though the group of the family
    /// was not skipped. Throttle reasons that are not collected and memory
    /// errors of a device without ECC are skipped, not failed.
    pub open spec fn read_failed(self, family: Family) -> bool {
        &&& !(family == Family::CurrentClocksThrottleReasons && self.throttle is Skipped)
        &&& !(family == Family::MemoryErrorCounters && self.ecc is Disabled)
        &&& exists|m: Metric| m.spec_family() == family && #[trigger] self.value_of(m) is None
    }

    /// Whether a read that a family depends on failed.
    pub fn has_failed(&self, family: Family) -> (failed: bool)
        ensures
            failed == self.read_failed(family),
    {
        match family {
            Family::DeviceCount => false,
            Family::Temperature => self.scalar_failed(Metric::Temperature, self.temperature.is_none()),
            Family::PowerUsage => self.scalar_failed(Metric::PowerUsage, self.power_usage.is_none()),
            Family::RunningComputeProcessesCount => self.scalar_failed(
                Metric::RunningComputeProcessesCount,
                self.running_compute_processes_count.is_none(),
            ),
            Family::RunningGraphicsProcessesCount => self.scalar_failed(
                Metric::RunningGraphicsProcessesCount,
                self.running_graphics_processes_count.is_none(),
            ),
            Family::CurrentPcieLinkWidth => self.scalar_failed(
                Metric::CurrentPcieLinkWidth,
                self.current_pcie_link_width.is_none(),
            ),
            Family::CurrentPcieLinkGeneration => self.scalar_failed(
                Metric::CurrentPcieLinkGeneration,
                self.current_pcie_link_gen.is_none(),
            ),
            Family::MaxPcieLinkWidth => self.scalar_failed(
                Metric::MaxPcieLinkWidth,
                self.max_pcie_link_width.is_none(),
            ),
            Family::MaxPcieLinkGeneration => self.scalar_failed(
                Metric::MaxPcieLinkGeneration,
                self.max_pcie_link_gen.is_none(),
            ),
            Family::DisplayActive => self.scalar_failed(
                Metric::DisplayActive,
                self.display_active.is_none(),
            ),
            Family::DisplayMode => self.scalar_failed(
                Metric::DisplayMode,
                self.display_connected.is_none(),
            ),
            Family::UtilizationGpu => self.scalar_failed(
                Metric::UtilizationGpu,
                self.utilization.is_none(),
            ),
            Family::UtilizationMemory => self.scalar_failed(
                Metric::UtilizationMemory,
                self.utilization.is_none(),
            ),
            Family::EncoderCapacityH264 => self.scalar_failed(
                Metric::EncoderCapacityH264,
                match self.encoder {
                    Some(e) => e.capacity_h264.is_none(),
                    None => true,
                },
            ),
            Family::EncoderCapacityHevc => self.scalar_failed(
                Metric::EncoderCapacityHevc,
                match self.encoder {
                    Some(e) => e.capacity_hevc.is_none(),
                    None => true,
                },
            ),
            Family::EncoderStatsSessionsCount => self.scalar_failed(
                Metric::EncoderStatsSessionsCount,
                self.encoder.is_none(),
            ),
            Family::EncoderStatsAverageFps => self.scalar_failed(
                Metric::EncoderStatsAverageFps,
                self.encoder.is_none(),
            ),
            Family::EncoderStatsAverageLatency => self.scalar_failed(
                Metric::EncoderStatsAverageLatency,
                self.encoder.is_none(),
            ),
            Family::FbcStatsSessionsCount => self.scalar_failed(
                Metric::FbcStatsSessionsCount,
                self.fbc.is_none(),
            ),
            Family::FbcStatsAverageFps => self.scalar_failed(
                Metric::FbcStatsAverageFps,
                self.fbc.is_none(),
            ),
            Family::FbcStatsAverageLatency => self.scalar_failed(
                Metric::FbcStatsAverageLatency,
                self.fbc.is_none(),
            ),
            Family::MemoryInfo => {
                let failed = self.memory.is_none();
                proof {
                    if failed {
                        assert(self.value_of(Metric::MemoryInfo(MemoryState::Free)) is None);
                    }
                }
                failed
            },
            Family::Clock => {
                let failed = !self.clocks.all_read();
                proof {
                    if failed {
                        let (id, clock) = choose|id: ClockId, clock: Clock|
                            self.clocks.spec_get(id, clock) is None;
                        assert(self.value_of(Metric::Clock(id, clock)) is None);
                    }
                }
                failed
            },
            Family::ApplicationsClock => {
                let failed = !self.clocks.all_read();
                proof {
                    if failed {
                        let (id, clock) = choose|id: ClockId, clock: Clock|
                            self.clocks.spec_get(id, clock) is None;
                        assert(self.value_of(Metric::ApplicationsClock(id, clock)) is None);
                    }
                }
                failed
            },
            Family::CurrentClocksThrottleReasons => match self.throttle {
                ThrottleReading::Failed => {
                    assert(self.value_of(
                        Metric::CurrentClocksThrottleReasons(ThrottleReason::GpuIdle),
                    ) is None);
                    true
                },
                _ => false,
            },
            Family::MemoryErrorCounters => match &self.ecc {
                EccReading::Failed => {
                    assert(self.value_of(
                        Metric::MemoryErrorCounters(
                            MemoryError::Corrected,
                            EccCounter::Volatile,
                            MemoryLocation::Cbu,
                        ),
                    ) is None);
                    true
                },
                EccReading::Disabled => false,
                EccReading::Enabled(counters) => {
                    let failed = !counters.all_read();
                    proof {
                        if failed {
                            let (error, counter, location) = choose|
                                error: MemoryError,
                                counter: EccCounter,
                                location: MemoryLocation,
                            |
                                counters.spec_get(error, counter, location) is None;
                            assert(self.value_of(
                                Metric::MemoryErrorCounters(error, counter, location),
                            ) is None);
                        }
                    }
                    failed
                },
            },
        }
    }

    /// `missing`, for a family that has the one metric `metric`.
    fn scalar_failed(&self, metric: Metric, missing: bool) -> (failed: bool)
        requires
            missing == (self.value_of(metric) is None),
            forall|m: Metric| m.spec_family() == metric.spec_family() ==> m == metric,
            metric.spec_family() != Family::CurrentClocksThrottleReasons,
            metric.spec_family() != Family::MemoryErrorCounters,
        ensures
            failed == missing,
            failed == self.read_failed(metric.spec_family()),
    {
        missing
    }
}

/// The failed reads of one device among `families`, in their order.
pub open spec fn device_failures(r: DeviceReadings, families: Seq<Family>) -> Seq<GatherError>
    decreases families.len(),
{
    if families.len() == 0 {
        Seq::empty()
    } else {
        let front = device_failures(r, families.drop_last());
        if r.read_failed(families.last()) {
            front.push(GatherError::MetricReadFailed { device: r.index, family: families.last() })
        } else {
            front
        }
    }
}

/// What failed for one enumerated index: the resolution of the device, or
/// the reads of a resolved device, family by family.
pub open spec fn outcome_failures(outcome: DeviceOutcome) -> Seq<GatherError> {
    match outcome {
        DeviceOutcome::Read(r) => device_failures(r, all_families()),
        DeviceOutcome::Unresolved { index } => seq![GatherError::DeviceResolutionFailed { index }],
    }
}

/// What failed in a pass without ending it, device by device.
pub open spec fn pass_failures(devices: Seq<DeviceOutcome>) -> Seq<GatherError>
    decreases devices.len(),
{
    if devices.len() == 0 {
        Seq::empty()
    } else {
        pass_failures(devices.drop_last()) + outcome_failures(devices.last())
    }
}

impl DeviceReadings {
    /// The failed reads of the device, one entry for each family that a
    /// failed read left without a value, in the order of the families.
    pub fn failures(&self) -> (failed: Vec<GatherError>)
        ensures
            failed@ == device_failures(*self, all_families()),
    {
        let families = Family::all();
        let mut failed: Vec<GatherError> = Vec::new();
        let mut i: usize = 0;
        while i < families.len()
            invariant
                i <= families@.len(),
                families@ == all_families(),
                failed@ == device_failures(*self, families@.take(i as int)),
            decreases families@.len() - i,
        {
            proof {
                assert(families@.take(i + 1).drop_last() =~= families@.take(i as int));
            }
            if self.has_failed(families[i]) {
                failed.push(GatherError::MetricReadFailed { device: self.index, family: families[i] });
            }
            i += 1;
        }
        proof {
            assert(families@.take(i as int) =~= families@);
        }
        failed
    }
}

impl PassReadings {
    /// Everything that failed in the pass without ending it: a
    /// `DeviceResolutionFailed` for each device that was skipped, a
    /// `MetricReadFailed` for each family of a device that a failed read
    /// left without a value.
    pub fn failures(&self) -> (failed: Vec<GatherError>)
        ensures
            failed@ == pass_failures(self.devices@),
    {
        let mut failed: Vec<GatherError> = Vec::new();
        let mut i: usize = 0;
        while i < self.devices.len()
            invariant
                i <= self.devices@.len(),
                failed@ == pass_failures(self.devices@.take(i as int)),
            decreases self.devices@.len() - i,
        {
            proof {
                assert(self.devices@.take(i + 1).drop_last() =~= self.devices@.take(i as int));
            }
            match &self.devices[i] {
                DeviceOutcome::Read(r) => {
                    let mut of_device = r.failures();
                    failed.append(&mut of_device);
                },
                DeviceOutcome::Unresolved { index } => {
                    failed.push(GatherError::DeviceResolutionFailed { index: *index });
                    assert(failed@ =~= pass_failures(self.devices@.take(i as int)) + seq![
                        GatherError::DeviceResolutionFailed { index: *index },
                    ]);
                },
            }
            i += 1;
        }
        proof {
            assert(self.devices@.take(i as int) =~= self.devices@);
        }
        failed
    }
}

} // verus!
