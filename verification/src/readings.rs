//! What one pass read from the devices, as plain values.
//!
//! A reading that failed is `None`; a group that was not read at all says
//! so in its own type. Nothing here is cached from one pass to the next.
use vstd::prelude::*;
use crate::metrics::{Family, Metric, Series};
use crate::str_helpers::{
    Clock, ClockId, EccCounter, MemoryError, MemoryLocation, MemoryState, ThrottleReason,
    ThrottleReasons,
};

verus! {

/// Utilization rates, in percent.
#[derive(Clone, Copy, Debug)]
pub struct Utilization {
    pub gpu: u32,
    pub memory: u32,
}

/// The codec of an encoder-capacity query.
#[derive(Clone, Copy, Debug, PartialEq, Eq, Structural)]
pub enum EncoderType {
    H264,
    HEVC,
}

/// The session statistics of the encoder.
#[derive(Clone, Copy, Debug)]
pub struct EncoderStats {
    pub session_count: u32,
    pub average_fps: u32,
    pub average_latency: u32,
}

/// Encoder session statistics, with the encoder capacity per codec.
#[derive(Clone, Copy, Debug)]
pub struct EncoderReadings {
    pub session_count: u32,
    pub average_fps: u32,
    pub average_latency: u32,
    pub capacity_h264: Option<u32>,
    pub capacity_hevc: Option<u32>,
}

/// Frame-buffer-capture session statistics.
#[derive(Clone, Copy, Debug)]
pub struct FbcStats {
    pub sessions_count: u32,
    pub average_fps: u32,
    pub average_latency: u32,
}

/// Device memory, in bytes.
#[derive(Clone, Copy, Debug)]
pub struct MemoryInfo {
    pub free: u64,
    pub total: u64,
    pub used: u64,
}

/// The speed of each clock domain, for one clock id.
#[derive(Clone, Copy, Debug)]
pub struct ClockSpeeds {
    pub graphics: Option<u32>,
    pub sm: Option<u32>,
    pub memory: Option<u32>,
    pub video: Option<u32>,
}

/// One reading per clock id and clock domain.
#[derive(Clone, Copy, Debug)]
pub struct ClockReadings {
    pub current: ClockSpeeds,
    pub target_app_clock: ClockSpeeds,
    pub default_app_clock: ClockSpeeds,
    pub customer_max_boost: ClockSpeeds,
}

/// The two error counters of one memory location and counter scope.
#[derive(Clone, Copy, Debug)]
pub struct ErrorCounts {
    pub corrected: Option<u64>,
    pub uncorrected: Option<u64>,
}

/// The counters of one memory location, per counter scope.
#[derive(Clone, Copy, Debug)]
pub struct ScopedErrorCounts {
    pub volatile: ErrorCounts,
    pub aggregate: ErrorCounts,
}

/// One reading per memory location, counter scope and error type.
#[derive(Clone, Copy, Debug)]
pub struct MemoryErrorReadings {
    pub l1_cache: ScopedErrorCounts,
    pub l2_cache: ScopedErrorCounts,
    pub device: ScopedErrorCounts,
    pub register_file: ScopedErrorCounts,
    pub texture: ScopedErrorCounts,
    pub shared: ScopedErrorCounts,
    pub cbu: ScopedErrorCounts,
    pub sram: ScopedErrorCounts,
}

/// The throttle-reason group of one device.
#[derive(Clone, Copy, Debug)]
pub enum ThrottleReading {
    /// Collection is switched off; nothing was read.
    Skipped,
    /// The bitmask could not be read.
    Failed,
    /// The bitmask as read.
    Read(ThrottleReasons),
}

/// The memory-error group of one device.
#[derive(Clone, Copy, Debug)]
pub enum EccReading {
    /// The ECC state could not be read.
    Failed,
    /// ECC is off: the counters mean nothing and were not read.
    Disabled,
    /// ECC is on; each counter was read on its own.
    Enabled(MemoryErrorReadings),
}

/// Everything one pass read from one device.
#[derive(Debug)]
pub struct DeviceReadings {
    pub index: u32,
    pub uuid: String,
    pub temperature: Option<u32>,
    /// Power draw in milliwatts.
    pub power_usage: Option<u32>,
    pub running_compute_processes_count: Option<u32>,
    pub running_graphics_processes_count: Option<u32>,
    pub current_pcie_link_width: Option<u32>,
    pub current_pcie_link_gen: Option<u32>,
    pub max_pcie_link_width: Option<u32>,
    pub max_pcie_link_gen: Option<u32>,
    pub display_active: Option<bool>,
    pub display_connected: Option<bool>,
    pub utilization: Option<Utilization>,
    pub encoder: Option<EncoderReadings>,
    pub fbc: Option<FbcStats>,
    pub memory: Option<MemoryInfo>,
    /// One read per clock id and clock domain; both clock families are
    /// written from it.
    pub clocks: ClockReadings,
    pub throttle: ThrottleReading,
    pub ecc: EccReading,
}

/// What a pass made of one enumerated index.
#[derive(Debug)]
pub enum DeviceOutcome {
    /// The device was resolved, and these are its readings.
    Read(DeviceReadings),
    /// The handle or the UUID of the device could not be had; the device
    /// was skipped.
    Unresolved { index: u32 },
}

impl DeviceOutcome {
    /// The enumerated index that this outcome is about.
    pub open spec fn index(self) -> u32 {
        match self {
            DeviceOutcome::Read(r) => r.index,
            DeviceOutcome::Unresolved { index } => index,
        }
    }
}

/// What one pass read: the enumerated device count and the outcome of
/// each index in turn.
#[derive(Debug)]
pub struct PassReadings {
    pub count: u32,
    pub devices: Vec<DeviceOutcome>,
}

impl EncoderReadings {
    /// The encoder group of a device whose session statistics were read:
    /// the statistics field by field, and the capacity of each codec as its
    /// own read gave it.
    pub fn of(stats: EncoderStats, capacity_h264: Option<u32>, capacity_hevc: Option<u32>) -> (group:
        EncoderReadings)
        ensures
            group.session_count == stats.session_count,
            group.average_fps == stats.average_fps,
            group.average_latency == stats.average_latency,
            group.capacity_h264 == capacity_h264,
            group.capacity_hevc == capacity_hevc,
    {
        EncoderReadings {
            session_count: stats.session_count,
            average_fps: stats.average_fps,
            average_latency: stats.average_latency,
            capacity_h264,
            capacity_hevc,
        }
    }
}

impl EccReading {
    /// What the read of the ECC state settles by itself: the group has
    /// failed where the state could not be read, it is skipped where ECC is
    /// off, and nothing is settled, the counters being still to read, where
    /// ECC is on.
    pub open spec fn spec_settled_by(state: Option<bool>) -> Option<EccReading> {
        match state {
            None => Some(EccReading::Failed),
            Some(false) => Some(EccReading::Disabled),
            Some(true) => None,
        }
    }

    /// The memory-error group as far as the read of the ECC state settles
    /// it, or `None` where ECC is on and the counters are to be read.
    #[verifier::when_used_as_spec(spec_settled_by)]
    pub fn settled_by(state: Option<bool>) -> (reading: Option<EccReading>)
        ensures
            reading == Self::spec_settled_by(state),
    {
        match state {
            None => Some(EccReading::Failed),
            Some(false) => Some(EccReading::Disabled),
            Some(true) => None,
        }
    }
}

pub open spec fn spec_widen(reading: Option<u32>) -> Option<u64> {
    match reading {
        Some(v) => Some(v as u64),
        None => None,
    }
}

/// A 32-bit reading as a registry value.
#[verifier::when_used_as_spec(spec_widen)]
pub fn widen(reading: Option<u32>) -> (wide: Option<u64>)
    ensures
        wide == spec_widen(reading),
{
    match reading {
        Some(v) => Some(v as u64),
        None => None,
    }
}

pub open spec fn spec_flag_value(flag: Option<bool>) -> Option<u64> {
    match flag {
        Some(b) => Some(if b { 1u64 } else { 0u64 }),
        None => None,
    }
}

/// A yes-or-no reading as a registry value: 1 for yes, 0 for no.
#[verifier::when_used_as_spec(spec_flag_value)]
pub fn flag_value(flag: Option<bool>) -> (value: Option<u64>)
    ensures
        value == spec_flag_value(flag),
{
    match flag {
        Some(b) => Some(if b { 1 } else { 0 }),
        None => None,
    }
}

pub open spec fn spec_throttle_indicator(mask: ThrottleReasons, reason: ThrottleReason) -> u64 {
    if mask.spec_intersects(reason.spec_flag()) {
        1
    } else {
        0
    }
}

/// The indicator of one reason under a bitmask: 1 where the reason's bit
/// is set in the bitmask, else 0.
#[verifier::when_used_as_spec(spec_throttle_indicator)]
pub fn throttle_indicator(mask: ThrottleReasons, reason: ThrottleReason) -> (value: u64)
    ensures
        value == spec_throttle_indicator(mask, reason),
{
    if mask.intersects(reason.flag()) {
        1
    } else {
        0
    }
}

/// The number of bits that are set in `bits`.
pub open spec fn count_ones(bits: nat) -> nat
    decreases bits,
{
    if bits == 0 {
        0
    } else {
        bits % 2 + count_ones(bits / 2)
    }
}

/// The indicators of the ten reasons under a bitmask, added up.
pub open spec fn throttle_indicator_sum(mask: ThrottleReasons) -> int {
    throttle_indicator(mask, ThrottleReason::GpuIdle) + throttle_indicator(
        mask,
        ThrottleReason::ApplicationsClocksSetting,
    ) + throttle_indicator(mask, ThrottleReason::SwPowerCap) + throttle_indicator(
        mask,
        ThrottleReason::HwSlowdown,
    ) + throttle_indicator(mask, ThrottleReason::SyncBoost) + throttle_indicator(
        mask,
        ThrottleReason::SwThermalSlowdown,
    ) + throttle_indicator(mask, ThrottleReason::HwThermalSlowdown) + throttle_indicator(
        mask,
        ThrottleReason::HwPowerBrakeSlowdown,
    ) + throttle_indicator(mask, ThrottleReason::DisplayClockSetting) + throttle_indicator(
        mask,
        ThrottleReason::Unthrottled,
    )
}

impl ClockSpeeds {
    pub open spec fn spec_get(self, clock: Clock) -> Option<u32> {
        match clock {
            Clock::Graphics => self.graphics,
            Clock::SM => self.sm,
            Clock::Memory => self.memory,
            Clock::Video => self.video,
        }
    }

    /// The reading for one clock domain.
    pub fn get(&self, clock: Clock) -> (reading: Option<u32>)
        ensures
            reading == self.spec_get(clock),
    {
        match clock {
            Clock::Graphics => self.graphics,
            Clock::SM => self.sm,
            Clock::Memory => self.memory,
            Clock::Video => self.video,
        }
    }
}

impl ClockSpeeds {
    /// Whether the read of every clock domain succeeded.
    pub fn all_read(&self) -> (all: bool)
        ensures
            all == (forall|clock: Clock| self.spec_get(clock) is Some),
    {
        let all = self.graphics.is_some() && self.sm.is_some() && self.memory.is_some()
            && self.video.is_some();
        proof {
            if all {
                assert forall|clock: Clock| self.spec_get(clock) is Some by {}
            } else {
                assert(self.spec_get(Clock::Graphics) is None || self.spec_get(Clock::SM) is None
                    || self.spec_get(Clock::Memory) is None || self.spec_get(Clock::Video) is None);
            }
        }
        all
    }
}

impl ClockReadings {
    /// Whether the read of every clock id and clock domain succeeded.
    pub fn all_read(&self) -> (all: bool)
        ensures
            all == (forall|id: ClockId, clock: Clock| self.spec_get(id, clock) is Some),
    {
        let all = self.current.all_read() && self.target_app_clock.all_read()
            && self.default_app_clock.all_read() && self.customer_max_boost.all_read();
        proof {
            if all {
                assert forall|id: ClockId, clock: Clock| self.spec_get(id, clock) is Some by {
                    assert(self.spec_of(id).spec_get(clock) is Some);
                }
            } else {
                let id = if !(forall|clock: Clock| self.current.spec_get(clock) is Some) {
                    ClockId::Current
                } else if !(forall|clock: Clock| self.target_app_clock.spec_get(clock) is Some) {
                    ClockId::TargetAppClock
                } else if !(forall|clock: Clock| self.default_app_clock.spec_get(clock) is Some) {
                    ClockId::DefaultAppClock
                } else {
                    ClockId::CustomerMaxBoost
                };
                let clock = choose|clock: Clock| self.spec_of(id).spec_get(clock) is None;
                assert(self.spec_get(id, clock) is None);
            }
        }
        all
    }

    pub open spec fn spec_of(self, id: ClockId) -> ClockSpeeds {
        match id {
            ClockId::Current => self.current,
            ClockId::TargetAppClock => self.target_app_clock,
            ClockId::DefaultAppClock => self.default_app_clock,
            ClockId::CustomerMaxBoost => self.customer_max_boost,
        }
    }

    pub open spec fn spec_get(self, id: ClockId, clock: Clock) -> Option<u32> {
        self.spec_of(id).spec_get(clock)
    }

    /// The reading for one clock id and clock domain.
    pub fn get(&self, id: ClockId, clock: Clock) -> (reading: Option<u32>)
        ensures
            reading == self.spec_get(id, clock),
    {
        match id {
            ClockId::Current => self.current.get(clock),
            ClockId::TargetAppClock => self.target_app_clock.get(clock),
            ClockId::DefaultAppClock => self.default_app_clock.get(clock),
            ClockId::CustomerMaxBoost => self.customer_max_boost.get(clock),
        }
    }
}

impl ErrorCounts {
    pub open spec fn spec_get(self, error: MemoryError) -> Option<u64> {
        match error {
            MemoryError::Corrected => self.corrected,
            MemoryError::Uncorrected => self.uncorrected,
        }
    }
}

impl ScopedErrorCounts {
    pub open spec fn spec_all_read(self) -> bool {
        forall|error: MemoryError, counter: EccCounter| self.spec_of(counter).spec_get(error) is Some
    }

    /// Whether the read of every counter of the location succeeded.
    pub fn all_read(&self) -> (all: bool)
        ensures
            all == self.spec_all_read(),
    {
        let all = self.volatile.corrected.is_some() && self.volatile.uncorrected.is_some()
            && self.aggregate.corrected.is_some() && self.aggregate.uncorrected.is_some();
        proof {
            if all {
                assert forall|error: MemoryError, counter: EccCounter|
                    self.spec_of(counter).spec_get(error) is Some by {}
            } else {
                assert(self.spec_of(EccCounter::Volatile).spec_get(MemoryError::Corrected) is None
                    || self.spec_of(EccCounter::Volatile).spec_get(MemoryError::Uncorrected) is None
                    || self.spec_of(EccCounter::Aggregate).spec_get(MemoryError::Corrected) is None
                    || self.spec_of(EccCounter::Aggregate).spec_get(MemoryError::Uncorrected)
                    is None);
            }
        }
        all
    }

    pub open spec fn spec_of(self, counter: EccCounter) -> ErrorCounts {
        match counter {
            EccCounter::Volatile => self.volatile,
            EccCounter::Aggregate => self.aggregate,
        }
    }
}

impl MemoryErrorReadings {
    /// Whether the read of every counter succeeded.
    pub fn all_read(&self) -> (all: bool)
        ensures
            all == (forall|error: MemoryError, counter: EccCounter, location: MemoryLocation|
                self.spec_get(error, counter, location) is Some),
    {
        let all = self.l1_cache.all_read() && self.l2_cache.all_read() && self.device.all_read()
            && self.register_file.all_read() && self.texture.all_read() && self.shared.all_read()
            && self.cbu.all_read() && self.sram.all_read();
        proof {
            if all {
                assert forall|error: MemoryError, counter: EccCounter, location: MemoryLocation|
                    self.spec_get(error, counter, location) is Some by {
                    assert(self.spec_of(location).spec_of(counter).spec_get(error) is Some);
                }
            } else {
                let location = if !self.l1_cache.spec_all_read() {
                    MemoryLocation::L1Cache
                } else if !self.l2_cache.spec_all_read() {
                    MemoryLocation::L2Cache
                } else if !self.device.spec_all_read() {
                    MemoryLocation::Device
                } else if !self.register_file.spec_all_read() {
                    MemoryLocation::RegisterFile
                } else if !self.texture.spec_all_read() {
                    MemoryLocation::Texture
                } else if !self.shared.spec_all_read() {
                    MemoryLocation::Shared
                } else if !self.cbu.spec_all_read() {
                    MemoryLocation::Cbu
                } else {
                    MemoryLocation::SRAM
                };
                assert(!self.spec_of(location).spec_all_read());
                let (error, counter) = choose|error: MemoryError, counter: EccCounter|
                    self.spec_of(location).spec_of(counter).spec_get(error) is None;
                assert(self.spec_get(error, counter, location) is None);
            }
        }
        all
    }

    pub open spec fn spec_of(self, location: MemoryLocation) -> ScopedErrorCounts {
        match location {
            MemoryLocation::L1Cache => self.l1_cache,
            MemoryLocation::L2Cache => self.l2_cache,
            MemoryLocation::Device => self.device,
            MemoryLocation::RegisterFile => self.register_file,
            MemoryLocation::Texture => self.texture,
            MemoryLocation::Shared => self.shared,
            MemoryLocation::Cbu => self.cbu,
            MemoryLocation::SRAM => self.sram,
        }
    }

    pub open spec fn spec_get(
        self,
        error: MemoryError,
        counter: EccCounter,
        location: MemoryLocation,
    ) -> Option<u64> {
        self.spec_of(location).spec_of(counter).spec_get(error)
    }

    /// The reading for one error type, counter scope and memory location.
    pub fn get(&self, error: MemoryError, counter: EccCounter, location: MemoryLocation) -> (reading:
        Option<u64>)
        ensures
            reading == self.spec_get(error, counter, location),
    {
        let at = match location {
            MemoryLocation::L1Cache => &self.l1_cache,
            MemoryLocation::L2Cache => &self.l2_cache,
            MemoryLocation::Device => &self.device,
            MemoryLocation::RegisterFile => &self.register_file,
            MemoryLocation::Texture => &self.texture,
            MemoryLocation::Shared => &self.shared,
            MemoryLocation::Cbu => &self.cbu,
            MemoryLocation::SRAM => &self.sram,
        };
        let counts = match counter {
            EccCounter::Volatile => &at.volatile,
            EccCounter::Aggregate => &at.aggregate,
        };
        match error {
            MemoryError::Corrected => counts.corrected,
            MemoryError::Uncorrected => counts.uncorrected,
        }
    }
}

impl DeviceReadings {
    /// The value that these readings hold for a metric of their device:
    /// `None` where the read failed or its group was skipped.
    pub open spec fn value_of(self, metric: Metric) -> Option<u64> {
        match metric {
            Metric::Temperature => widen(self.temperature),
            Metric::PowerUsage => widen(self.power_usage),
            Metric::RunningComputeProcessesCount => widen(self.running_compute_processes_count),
            Metric::RunningGraphicsProcessesCount => widen(self.running_graphics_processes_count),
            Metric::CurrentPcieLinkWidth => widen(self.current_pcie_link_width),
            Metric::CurrentPcieLinkGeneration => widen(self.current_pcie_link_gen),
            Metric::MaxPcieLinkWidth => widen(self.max_pcie_link_width),
            Metric::MaxPcieLinkGeneration => widen(self.max_pcie_link_gen),
            Metric::DisplayActive => flag_value(self.display_active),
            Metric::DisplayMode => flag_value(self.display_connected),
            Metric::UtilizationGpu => match self.utilization {
                Some(u) => Some(u.gpu as u64),
                None => None,
            },
            Metric::UtilizationMemory => match self.utilization {
                Some(u) => Some(u.memory as u64),
                None => None,
            },
            Metric::EncoderCapacityH264 => match self.encoder {
                Some(e) => widen(e.capacity_h264),
                None => None,
            },
            Metric::EncoderCapacityHevc => match self.encoder {
                Some(e) => widen(e.capacity_hevc),
                None => None,
            },
            Metric::EncoderStatsSessionsCount => match self.encoder {
                Some(e) => Some(e.session_count as u64),
                None => None,
            },
            Metric::EncoderStatsAverageFps => match self.encoder {
                Some(e) => Some(e.average_fps as u64),
                None => None,
            },
            Metric::EncoderStatsAverageLatency => match self.encoder {
                Some(e) => Some(e.average_latency as u64),
                None => None,
            },
            Metric::FbcStatsSessionsCount => match self.fbc {
                Some(f) => Some(f.sessions_count as u64),
                None => None,
            },
            Metric::FbcStatsAverageFps => match self.fbc {
                Some(f) => Some(f.average_fps as u64),
                None => None,
            },
            Metric::FbcStatsAverageLatency => match self.fbc {
                Some(f) => Some(f.average_latency as u64),
                None => None,
            },
            Metric::MemoryInfo(state) => match self.memory {
                Some(m) => Some(
                    match state {
                        MemoryState::Free => m.free,
                        MemoryState::Total => m.total,
                        MemoryState::Used => m.used,
                    },
                ),
                None => None,
            },
            Metric::Clock(id, clock) => widen(self.clocks.spec_get(id, clock)),
            Metric::ApplicationsClock(id, clock) => widen(self.clocks.spec_get(id, clock)),
            Metric::CurrentClocksThrottleReasons(reason) => match self.throttle {
                ThrottleReading::Read(mask) => Some(throttle_indicator(mask, reason)),
                _ => None,
            },
            Metric::MemoryErrorCounters(error, counter, location) => match self.ecc {
                EccReading::Enabled(counters) => counters.spec_get(error, counter, location),
                _ => None,
            },
        }
    }

    /// The value that these readings hold for a metric of their device.
    pub fn value(&self, metric: Metric) -> (value: Option<u64>)
        ensures
            value == self.value_of(metric),
    {
        match metric {
            Metric::Temperature => widen(self.temperature),
            Metric::PowerUsage => widen(self.power_usage),
            Metric::RunningComputeProcessesCount => widen(self.running_compute_processes_count),
            Metric::RunningGraphicsProcessesCount => widen(self.running_graphics_processes_count),
            Metric::CurrentPcieLinkWidth => widen(self.current_pcie_link_width),
            Metric::CurrentPcieLinkGeneration => widen(self.current_pcie_link_gen),
            Metric::MaxPcieLinkWidth => widen(self.max_pcie_link_width),
            Metric::MaxPcieLinkGeneration => widen(self.max_pcie_link_gen),
            Metric::DisplayActive => flag_value(self.display_active),
            Metric::DisplayMode => flag_value(self.display_connected),
            Metric::UtilizationGpu => match self.utilization {
                Some(u) => Some(u.gpu as u64),
                None => None,
            },
            Metric::UtilizationMemory => match self.utilization {
                Some(u) => Some(u.memory as u64),
                None => None,
            },
            Metric::EncoderCapacityH264 => match self.encoder {
                Some(e) => widen(e.capacity_h264),
                None => None,
            },
            Metric::EncoderCapacityHevc => match self.encoder {
                Some(e) => widen(e.capacity_hevc),
                None => None,
            },
            Metric::EncoderStatsSessionsCount => match self.encoder {
                Some(e) => Some(e.session_count as u64),
                None => None,
            },
            Metric::EncoderStatsAverageFps => match self.encoder {
                Some(e) => Some(e.average_fps as u64),
                None => None,
            },
            Metric::EncoderStatsAverageLatency => match self.encoder {
                Some(e) => Some(e.average_latency as u64),
                None => None,
            },
            Metric::FbcStatsSessionsCount => match self.fbc {
                Some(f) => Some(f.sessions_count as u64),
                None => None,
            },
            Metric::FbcStatsAverageFps => match self.fbc {
                Some(f) => Some(f.average_fps as u64),
                None => None,
            },
            Metric::FbcStatsAverageLatency => match self.fbc {
                Some(f) => Some(f.average_latency as u64),
                None => None,
            },
            Metric::MemoryInfo(state) => match self.memory {
                Some(m) => Some(
                    match state {
                        MemoryState::Free => m.free,
                        MemoryState::Total => m.total,
                        MemoryState::Used => m.used,
                    },
                ),
                None => None,
            },
            Metric::Clock(id, clock) => widen(self.clocks.get(id, clock)),
            Metric::ApplicationsClock(id, clock) => widen(self.clocks.get(id, clock)),
            Metric::CurrentClocksThrottleReasons(reason) => match self.throttle {
                ThrottleReading::Read(mask) => Some(throttle_indicator(mask, reason)),
                _ => None,
            },
            Metric::MemoryErrorCounters(error, counter, location) => match self.ecc {
                EccReading::Enabled(counters) => counters.get(error, counter, location),
                _ => None,
            },
        }
    }

    /// The series of a metric on the device of these readings.
    pub open spec fn series_of(self, metric: Metric) -> Series {
        Series { metric, device: self.index, uuid: self.uuid@ }
    }

    /// The series of a family that these readings write: those that they
    /// hold a value for.
    pub open spec fn written(self, family: Family) -> Set<Series> {
        Set::new(|k: Series| k.metric.spec_family() == family && self.observed(k) is Some)
    }

    /// The value that these readings give a series: that of its metric
    /// where the series belongs to this device under the index and UUID
    /// resolved in this pass, `None` for every other series.
    pub open spec fn observed(self, series: Series) -> Option<u64> {
        if series.device == self.index && series.uuid == self.uuid@ {
            self.value_of(series.metric)
        } else {
            None
        }
    }
}

} // verus!
