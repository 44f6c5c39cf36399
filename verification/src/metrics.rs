//! The metric registry: which series exist, and the latest value of each.
use vstd::prelude::*;
use vstd::string::StringExecFns;
use crate::decimal::{decimal, decimal_string, lemma_decimal_injective};
use crate::str_helpers::{
    clock_id_label, clock_id_str, clock_type_label, clock_type_str, ecc_counter_type_label,
    ecc_counter_type_str, lemma_clock_id_label_injective, lemma_clock_type_label_injective,
    lemma_ecc_counter_type_label_injective, lemma_memory_error_type_label_injective,
    lemma_memory_location_label_injective, lemma_memory_state_label_injective,
    lemma_throttle_reason_label_injective, memory_error_type_label, memory_error_type_str,
    memory_location_label, memory_location_str, memory_state_label, memory_state_str,
    throttle_reason_label, throttle_reason_str, Clock, ClockId, EccCounter, MemoryError,
    MemoryLocation, MemoryState, ThrottleReason,
};

verus! {

/// What a series measures, with the labels that tell it from the other
/// series of its family on the same device.
#[derive(Clone, Copy, Debug, PartialEq, Eq, Structural)]
pub enum Metric {
    Temperature,
    PowerUsage,
    FbcStatsSessionsCount,
    FbcStatsAverageFps,
    FbcStatsAverageLatency,
    RunningComputeProcessesCount,
    RunningGraphicsProcessesCount,
    CurrentPcieLinkWidth,
    CurrentPcieLinkGeneration,
    MaxPcieLinkWidth,
    MaxPcieLinkGeneration,
    UtilizationGpu,
    UtilizationMemory,
    Clock(ClockId, Clock),
    ApplicationsClock(ClockId, Clock),
    MemoryInfo(MemoryState),
    DisplayActive,
    DisplayMode,
    EncoderCapacityH264,
    EncoderCapacityHevc,
    EncoderStatsSessionsCount,
    EncoderStatsAverageFps,
    EncoderStatsAverageLatency,
    CurrentClocksThrottleReasons(ThrottleReason),
    MemoryErrorCounters(MemoryError, EccCounter, MemoryLocation),
}

/// A named instrument: every series of a family has the family's name,
/// help text and label names.
#[derive(Clone, Copy, Debug, PartialEq, Eq, Structural)]
pub enum Family {
    DeviceCount,
    Temperature,
    PowerUsage,
    FbcStatsSessionsCount,
    FbcStatsAverageFps,
    FbcStatsAverageLatency,
    RunningComputeProcessesCount,
    RunningGraphicsProcessesCount,
    CurrentPcieLinkWidth,
    CurrentPcieLinkGeneration,
    MaxPcieLinkWidth,
    MaxPcieLinkGeneration,
    UtilizationGpu,
    UtilizationMemory,
    Clock,
    ApplicationsClock,
    MemoryInfo,
    DisplayActive,
    DisplayMode,
    EncoderCapacityH264,
    EncoderCapacityHevc,
    EncoderStatsSessionsCount,
    EncoderStatsAverageFps,
    EncoderStatsAverageLatency,
    CurrentClocksThrottleReasons,
    MemoryErrorCounters,
}

/// Every family, in the order in which the instruments are registered.
pub open spec fn all_families() -> Seq<Family> {
    seq![
        Family::DeviceCount,
        Family::Temperature,
        Family::PowerUsage,
        Family::FbcStatsSessionsCount,
        Family::FbcStatsAverageFps,
        Family::FbcStatsAverageLatency,
        Family::RunningComputeProcessesCount,
        Family::RunningGraphicsProcessesCount,
        Family::CurrentPcieLinkWidth,
        Family::CurrentPcieLinkGeneration,
        Family::MaxPcieLinkWidth,
        Family::MaxPcieLinkGeneration,
        Family::UtilizationGpu,
        Family::UtilizationMemory,
        Family::Clock,
        Family::ApplicationsClock,
        Family::MemoryInfo,
        Family::DisplayActive,
        Family::DisplayMode,
        Family::EncoderCapacityH264,
        Family::EncoderCapacityHevc,
        Family::EncoderStatsSessionsCount,
        Family::EncoderStatsAverageFps,
        Family::EncoderStatsAverageLatency,
        Family::CurrentClocksThrottleReasons,
        Family::MemoryErrorCounters,
    ]
}

/// Every family stands in `all_families`.
pub proof fn lemma_all_families_complete(family: Family)
    ensures
        all_families().contains(family),
{
    let i: int = match family {
        Family::DeviceCount => 0,
        Family::Temperature => 1,
        Family::PowerUsage => 2,
        Family::FbcStatsSessionsCount => 3,
        Family::FbcStatsAverageFps => 4,
        Family::FbcStatsAverageLatency => 5,
        Family::RunningComputeProcessesCount => 6,
        Family::RunningGraphicsProcessesCount => 7,
        Family::CurrentPcieLinkWidth => 8,
        Family::CurrentPcieLinkGeneration => 9,
        Family::MaxPcieLinkWidth => 10,
        Family::MaxPcieLinkGeneration => 11,
        Family::UtilizationGpu => 12,
        Family::UtilizationMemory => 13,
        Family::Clock => 14,
        Family::ApplicationsClock => 15,
        Family::MemoryInfo => 16,
        Family::DisplayActive => 17,
        Family::DisplayMode => 18,
        Family::EncoderCapacityH264 => 19,
        Family::EncoderCapacityHevc => 20,
        Family::EncoderStatsSessionsCount => 21,
        Family::EncoderStatsAverageFps => 22,
        Family::EncoderStatsAverageLatency => 23,
        Family::CurrentClocksThrottleReasons => 24,
        Family::MemoryErrorCounters => 25,
    };
    assert(all_families()[i] == family);
}

impl Family {
    pub open spec fn spec_name(self) -> Seq<char> {
        match self {
            Family::DeviceCount => "nvml_device_count"@,
            Family::Temperature => "nvml_temperature"@,
            Family::PowerUsage => "nvml_power_usage"@,
            Family::FbcStatsSessionsCount => "nvml_fbc_stats_sessions_count"@,
            Family::FbcStatsAverageFps => "nvml_fbc_stats_average_fps"@,
            Family::FbcStatsAverageLatency => "nvml_fbc_stats_average_latency"@,
            Family::RunningComputeProcessesCount => "nvml_running_compute_processes_count"@,
            Family::RunningGraphicsProcessesCount => "nvml_running_graphics_processes_count"@,
            Family::CurrentPcieLinkWidth => "nvml_current_pcie_link_width"@,
            Family::CurrentPcieLinkGeneration => "nvml_current_pcie_link_generation"@,
            Family::MaxPcieLinkWidth => "nvml_max_pcie_link_width"@,
            Family::MaxPcieLinkGeneration => "nvml_max_pcie_link_generation"@,
            Family::UtilizationGpu => "nvml_utilization_gpu"@,
            Family::UtilizationMemory => "nvml_utilization_memory"@,
            Family::Clock => "nvml_clock"@,
            Family::ApplicationsClock => "nvml_applications_clock"@,
            Family::MemoryInfo => "nvml_memory_info"@,
            Family::DisplayActive => "nvml_display_active"@,
            Family::DisplayMode => "nvml_display_mode"@,
            Family::EncoderCapacityH264 => "nvml_encoder_capacity_h264"@,
            Family::EncoderCapacityHevc => "nvml_encoder_capacity_hevc"@,
            Family::EncoderStatsSessionsCount => "nvml_encoder_stats_sessions_count"@,
            Family::EncoderStatsAverageFps => "nvml_encoder_stats_average_fps"@,
            Family::EncoderStatsAverageLatency => "nvml_encoder_stats_average_latency"@,
            Family::CurrentClocksThrottleReasons => "nvml_current_clocks_throttle_reasons"@,
            Family::MemoryErrorCounters => "nvml_memory_error_counters"@,
        }
    }

    /// The name under which the family is exported.
    pub fn name(self) -> (s: &'static str)
        ensures
            s@ == self.spec_name(),
    {
        match self {
            Family::DeviceCount => "nvml_device_count",
            Family::Temperature => "nvml_temperature",
            Family::PowerUsage => "nvml_power_usage",
            Family::FbcStatsSessionsCount => "nvml_fbc_stats_sessions_count",
            Family::FbcStatsAverageFps => "nvml_fbc_stats_average_fps",
            Family::FbcStatsAverageLatency => "nvml_fbc_stats_average_latency",
            Family::RunningComputeProcessesCount => "nvml_running_compute_processes_count",
            Family::RunningGraphicsProcessesCount => "nvml_running_graphics_processes_count",
            Family::CurrentPcieLinkWidth => "nvml_current_pcie_link_width",
            Family::CurrentPcieLinkGeneration => "nvml_current_pcie_link_generation",
            Family::MaxPcieLinkWidth => "nvml_max_pcie_link_width",
            Family::MaxPcieLinkGeneration => "nvml_max_pcie_link_generation",
            Family::UtilizationGpu => "nvml_utilization_gpu",
            Family::UtilizationMemory => "nvml_utilization_memory",
            Family::Clock => "nvml_clock",
            Family::ApplicationsClock => "nvml_applications_clock",
            Family::MemoryInfo => "nvml_memory_info",
            Family::DisplayActive => "nvml_display_active",
            Family::DisplayMode => "nvml_display_mode",
            Family::EncoderCapacityH264 => "nvml_encoder_capacity_h264",
            Family::EncoderCapacityHevc => "nvml_encoder_capacity_hevc",
            Family::EncoderStatsSessionsCount => "nvml_encoder_stats_sessions_count",
            Family::EncoderStatsAverageFps => "nvml_encoder_stats_average_fps",
            Family::EncoderStatsAverageLatency => "nvml_encoder_stats_average_latency",
            Family::CurrentClocksThrottleReasons => "nvml_current_clocks_throttle_reasons",
            Family::MemoryErrorCounters => "nvml_memory_error_counters",
        }
    }

    pub open spec fn spec_help(self) -> Seq<char> {
        match self {
            Family::DeviceCount => "number of nvml devices"@,
            Family::Temperature => "temperature of nvml device"@,
            Family::PowerUsage => "power usage of nvml device"@,
            Family::FbcStatsSessionsCount => "session count for frame buffer capture sessions"@,
            Family::FbcStatsAverageFps => "average fps for frame buffer capture sessions"@,
            Family::FbcStatsAverageLatency => "average latency for frame buffer capture sessions"@,
            Family::RunningComputeProcessesCount => "number of running compute processes"@,
            Family::RunningGraphicsProcessesCount => "number of running graphics processes"@,
            Family::CurrentPcieLinkWidth => "current pcie link width"@,
            Family::CurrentPcieLinkGeneration => "current pcie link generation"@,
            Family::MaxPcieLinkWidth => "max pcie link width"@,
            Family::MaxPcieLinkGeneration => "max pcie link generation"@,
            Family::UtilizationGpu => "GPU utilization"@,
            Family::UtilizationMemory => "memory utilization"@,
            Family::Clock => "clock speed"@,
            Family::ApplicationsClock => "clock speed"@,
            Family::MemoryInfo => "memory information"@,
            Family::DisplayActive => "display active"@,
            Family::DisplayMode => "display mode"@,
            Family::EncoderCapacityH264 => "encoder capacity"@,
            Family::EncoderCapacityHevc => "encoder capacity"@,
            Family::EncoderStatsSessionsCount => "session count for encoder sessions"@,
            Family::EncoderStatsAverageFps => "average fps for encoder sessions"@,
            Family::EncoderStatsAverageLatency => "average latency for encoder sessions"@,
            Family::CurrentClocksThrottleReasons => "current clock throttling reason code"@,
            Family::MemoryErrorCounters => "memory error counters"@,
        }
    }

    /// The help text of the family.
    pub fn help(self) -> (s: &'static str)
        ensures
            s@ == self.spec_help(),
    {
        match self {
            Family::DeviceCount => "number of nvml devices",
            Family::Temperature => "temperature of nvml device",
            Family::PowerUsage => "power usage of nvml device",
            Family::FbcStatsSessionsCount => "session count for frame buffer capture sessions",
            Family::FbcStatsAverageFps => "average fps for frame buffer capture sessions",
            Family::FbcStatsAverageLatency => "average latency for frame buffer capture sessions",
            Family::RunningComputeProcessesCount => "number of running compute processes",
            Family::RunningGraphicsProcessesCount => "number of running graphics processes",
            Family::CurrentPcieLinkWidth => "current pcie link width",
            Family::CurrentPcieLinkGeneration => "current pcie link generation",
            Family::MaxPcieLinkWidth => "max pcie link width",
            Family::MaxPcieLinkGeneration => "max pcie link generation",
            Family::UtilizationGpu => "GPU utilization",
            Family::UtilizationMemory => "memory utilization",
            Family::Clock => "clock speed",
            Family::ApplicationsClock => "clock speed",
            Family::MemoryInfo => "memory information",
            Family::DisplayActive => "display active",
            Family::DisplayMode => "display mode",
            Family::EncoderCapacityH264 => "encoder capacity",
            Family::EncoderCapacityHevc => "encoder capacity",
            Family::EncoderStatsSessionsCount => "session count for encoder sessions",
            Family::EncoderStatsAverageFps => "average fps for encoder sessions",
            Family::EncoderStatsAverageLatency => "average latency for encoder sessions",
            Family::CurrentClocksThrottleReasons => "current clock throttling reason code",
            Family::MemoryErrorCounters => "memory error counters",
        }
    }

    pub open spec fn spec_label_names(self) -> Seq<Seq<char>> {
        match self {
            Family::DeviceCount => seq![],
            Family::Clock | Family::ApplicationsClock => seq!["device"@, "uuid"@, "clock_id"@, "type"@],
            Family::MemoryInfo => seq!["device"@, "uuid"@, "state"@],
            Family::CurrentClocksThrottleReasons => seq!["device"@, "uuid"@, "reason"@],
            Family::MemoryErrorCounters => seq!["device"@, "uuid"@, "mem_error"@, "ecc_counter"@, "mem_location"@],
            _ => seq!["device"@, "uuid"@],
        }
    }

    /// The label names of the family, in the order of a series' label
    /// values.
    pub fn label_names(self) -> (names: Vec<&'static str>)
        ensures
            names@.len() == self.spec_label_names().len(),
            forall|i: int| 0 <= i < names@.len() ==> (#[trigger] names@[i])@ == self.spec_label_names()[i],
    {
        match self {
            Family::DeviceCount => Vec::new(),
            Family::Clock | Family::ApplicationsClock => vec!["device", "uuid", "clock_id", "type"],
            Family::MemoryInfo => vec!["device", "uuid", "state"],
            Family::CurrentClocksThrottleReasons => vec!["device", "uuid", "reason"],
            Family::MemoryErrorCounters => vec!["device", "uuid", "mem_error", "ecc_counter", "mem_location"],
            _ => vec!["device", "uuid"],
        }
    }

    /// Every family, in the order in which the instruments are registered.
    pub fn all() -> (families: Vec<Family>)
        ensures
            families@ == all_families(),
    {
        let families = vec![
            Family::DeviceCount,
            Family::Temperature,
            Family::PowerUsage,
            Family::FbcStatsSessionsCount,
            Family::FbcStatsAverageFps,
            Family::FbcStatsAverageLatency,
            Family::RunningComputeProcessesCount,
            Family::RunningGraphicsProcessesCount,
            Family::CurrentPcieLinkWidth,
            Family::CurrentPcieLinkGeneration,
            Family::MaxPcieLinkWidth,
            Family::MaxPcieLinkGeneration,
            Family::UtilizationGpu,
            Family::UtilizationMemory,
            Family::Clock,
            Family::ApplicationsClock,
            Family::MemoryInfo,
            Family::DisplayActive,
            Family::DisplayMode,
            Family::EncoderCapacityH264,
            Family::EncoderCapacityHevc,
            Family::EncoderStatsSessionsCount,
            Family::EncoderStatsAverageFps,
            Family::EncoderStatsAverageLatency,
            Family::CurrentClocksThrottleReasons,
            Family::MemoryErrorCounters,
        ];
        assert(families@ =~= all_families());
        families
    }

    /// By how much a value of the family is divided to give the exported
    /// number: power is read in milliwatts and exported in watts.
    pub open spec fn spec_divisor(self) -> u32 {
        match self {
            Family::PowerUsage => 1000,
            _ => 1,
        }
    }

    /// The divisor between a stored value and the exported number.
    #[verifier::when_used_as_spec(spec_divisor)]
    pub fn divisor(self) -> (d: u32)
        ensures
            d == self.spec_divisor(),
    {
        match self {
            Family::PowerUsage => 1000,
            _ => 1,
        }
    }
}

impl Metric {
    pub open spec fn spec_family(self) -> Family {
        match self {
            Metric::Temperature => Family::Temperature,
            Metric::PowerUsage => Family::PowerUsage,
            Metric::FbcStatsSessionsCount => Family::FbcStatsSessionsCount,
            Metric::FbcStatsAverageFps => Family::FbcStatsAverageFps,
            Metric::FbcStatsAverageLatency => Family::FbcStatsAverageLatency,
            Metric::RunningComputeProcessesCount => Family::RunningComputeProcessesCount,
            Metric::RunningGraphicsProcessesCount => Family::RunningGraphicsProcessesCount,
            Metric::CurrentPcieLinkWidth => Family::CurrentPcieLinkWidth,
            Metric::CurrentPcieLinkGeneration => Family::CurrentPcieLinkGeneration,
            Metric::MaxPcieLinkWidth => Family::MaxPcieLinkWidth,
            Metric::MaxPcieLinkGeneration => Family::MaxPcieLinkGeneration,
            Metric::UtilizationGpu => Family::UtilizationGpu,
            Metric::UtilizationMemory => Family::UtilizationMemory,
            Metric::Clock(_, _) => Family::Clock,
            Metric::ApplicationsClock(_, _) => Family::ApplicationsClock,
            Metric::MemoryInfo(_) => Family::MemoryInfo,
            Metric::DisplayActive => Family::DisplayActive,
            Metric::DisplayMode => Family::DisplayMode,
            Metric::EncoderCapacityH264 => Family::EncoderCapacityH264,
            Metric::EncoderCapacityHevc => Family::EncoderCapacityHevc,
            Metric::EncoderStatsSessionsCount => Family::EncoderStatsSessionsCount,
            Metric::EncoderStatsAverageFps => Family::EncoderStatsAverageFps,
            Metric::EncoderStatsAverageLatency => Family::EncoderStatsAverageLatency,
            Metric::CurrentClocksThrottleReasons(_) => Family::CurrentClocksThrottleReasons,
            Metric::MemoryErrorCounters(_, _, _) => Family::MemoryErrorCounters,
        }
    }

    /// The family that a series of this metric belongs to.
    #[verifier::when_used_as_spec(spec_family)]
    pub fn family(self) -> (f: Family)
        ensures
            f == self.spec_family(),
    {
        match self {
            Metric::Temperature => Family::Temperature,
            Metric::PowerUsage => Family::PowerUsage,
            Metric::FbcStatsSessionsCount => Family::FbcStatsSessionsCount,
            Metric::FbcStatsAverageFps => Family::FbcStatsAverageFps,
            Metric::FbcStatsAverageLatency => Family::FbcStatsAverageLatency,
            Metric::RunningComputeProcessesCount => Family::RunningComputeProcessesCount,
            Metric::RunningGraphicsProcessesCount => Family::RunningGraphicsProcessesCount,
            Metric::CurrentPcieLinkWidth => Family::CurrentPcieLinkWidth,
            Metric::CurrentPcieLinkGeneration => Family::CurrentPcieLinkGeneration,
            Metric::MaxPcieLinkWidth => Family::MaxPcieLinkWidth,
            Metric::MaxPcieLinkGeneration => Family::MaxPcieLinkGeneration,
            Metric::UtilizationGpu => Family::UtilizationGpu,
            Metric::UtilizationMemory => Family::UtilizationMemory,
            Metric::Clock(_, _) => Family::Clock,
            Metric::ApplicationsClock(_, _) => Family::ApplicationsClock,
            Metric::MemoryInfo(_) => Family::MemoryInfo,
            Metric::DisplayActive => Family::DisplayActive,
            Metric::DisplayMode => Family::DisplayMode,
            Metric::EncoderCapacityH264 => Family::EncoderCapacityH264,
            Metric::EncoderCapacityHevc => Family::EncoderCapacityHevc,
            Metric::EncoderStatsSessionsCount => Family::EncoderStatsSessionsCount,
            Metric::EncoderStatsAverageFps => Family::EncoderStatsAverageFps,
            Metric::EncoderStatsAverageLatency => Family::EncoderStatsAverageLatency,
            Metric::CurrentClocksThrottleReasons(_) => Family::CurrentClocksThrottleReasons,
            Metric::MemoryErrorCounters(_, _, _) => Family::MemoryErrorCounters,
        }
    }
}

impl Metric {
    /// The label values that tell a series of this metric from the others
    /// of its family on the same device, in the order of the family's label
    /// names after `device` and `uuid`.
    pub open spec fn spec_labels(self) -> Seq<Seq<char>> {
        match self {
            Metric::Clock(id, clock) => seq![clock_id_label(id), clock_type_label(clock)],
            Metric::ApplicationsClock(id, clock) => seq![
                clock_id_label(id),
                clock_type_label(clock),
            ],
            Metric::MemoryInfo(state) => seq![memory_state_label(state)],
            Metric::CurrentClocksThrottleReasons(reason) => seq![
                throttle_reason_label(reason.spec_flag()),
            ],
            Metric::MemoryErrorCounters(error, counter, location) => seq![
                memory_error_type_label(error),
                ecc_counter_type_label(counter),
                memory_location_label(location),
            ],
            _ => Seq::empty(),
        }
    }

    /// The label values of this metric beyond `device` and `uuid`.
    pub fn labels(self) -> (values: Vec<&'static str>)
        ensures
            values@.len() == self.spec_labels().len(),
            forall|i: int| 0 <= i < values@.len() ==> (#[trigger] values@[i])@ == self.spec_labels()[i],
    {
        match self {
            Metric::Clock(id, clock) => vec![clock_id_str(id), clock_type_str(clock)],
            Metric::ApplicationsClock(id, clock) => vec![clock_id_str(id), clock_type_str(clock)],
            Metric::MemoryInfo(state) => vec![memory_state_str(state)],
            Metric::CurrentClocksThrottleReasons(reason) => vec![throttle_reason_str(reason.flag())],
            Metric::MemoryErrorCounters(error, counter, location) => vec![
                memory_error_type_str(&error),
                ecc_counter_type_str(&counter),
                memory_location_str(&location),
            ],
            _ => Vec::new(),
        }
    }
}

/// The identity of one series: what it measures, on which device.
pub struct Series {
    pub metric: Metric,
    pub device: u32,
    pub uuid: Seq<char>,
}

/// One series with its current value.
#[derive(Debug)]
pub struct Sample {
    pub metric: Metric,
    pub device: u32,
    pub uuid: String,
    pub value: u64,
}

impl Series {
    /// The label values of the series, in the order of its family's label
    /// names: the device index in decimal, the UUID, then the labels of the
    /// metric.
    pub open spec fn label_values(self) -> Seq<Seq<char>> {
        seq![decimal(self.device as nat), self.uuid] + self.metric.spec_labels()
    }
}

impl Sample {
    /// The series that this sample is the value of.
    pub open spec fn series(&self) -> Series {
        Series { metric: self.metric, device: self.device, uuid: self.uuid@ }
    }

    /// The label values of the sample's series.
    pub fn label_values(&self) -> (values: Vec<String>)
        ensures
            values@.len() == self.series().label_values().len(),
            forall|i: int|
                0 <= i < values@.len() ==> (#[trigger] values@[i])@ == self.series().label_values()[i],
    {
        let extra = self.metric.labels();
        let mut values: Vec<String> = Vec::new();
        values.push(decimal_string(self.device));
        values.push(self.uuid.clone());
        let mut i: usize = 0;
        while i < extra.len()
            invariant
                i <= extra@.len(),
                extra@.len() == self.metric.spec_labels().len(),
                forall|j: int|
                    0 <= j < extra@.len() ==> (#[trigger] extra@[j])@ == self.metric.spec_labels()[j],
                values@.len() == 2 + i,
                forall|j: int|
                    0 <= j < values@.len() ==> (#[trigger] values@[j])@
                        == self.series().label_values()[j],
            decreases extra@.len() - i,
        {
            values.push(String::from_str(extra[i]));
            i += 1;
        }
        values
    }
}

/// The registry at one moment: the device count and every series with
/// the value it had, each series once.
#[derive(Debug)]
pub struct Snapshot {
    pub device_count: u32,
    pub samples: Vec<Sample>,
}

impl Snapshot {
    /// Whether the snapshot shows exactly what a registry holds: the same
    /// device count, and each series of the registry once, with its value.
    pub open spec fn shows(&self, view: MetricsView) -> bool {
        &&& self.device_count == view.device_count
        &&& forall|i: int|
            0 <= i < self.samples@.len() ==> {
                &&& view.values.contains_key(#[trigger] self.samples@[i].series())
                &&& view.values[self.samples@[i].series()] == self.samples@[i].value
            }
        &&& forall|k: Series| #[trigger]
            view.values.contains_key(k) ==> exists|i: int|
                0 <= i < self.samples@.len() && #[trigger] self.samples@[i].series() == k
        &&& forall|i: int, j: int|
            0 <= i < j < self.samples@.len() ==> #[trigger] self.samples@[i].series()
                != #[trigger] self.samples@[j].series()
    }
}

/// Within a family the label values tell the series apart: two series of
/// one family with the same label values are the same series.
pub proof fn lemma_label_values_identify_series(a: Series, b: Series)
    requires
        a.metric.spec_family() == b.metric.spec_family(),
        a.label_values() == b.label_values(),
    ensures
        a == b,
{
    let la = a.label_values();
    let lb = b.label_values();
    assert(la[0] == decimal(a.device as nat));
    assert(lb[0] == decimal(b.device as nat));
    assert(la[1] == a.uuid);
    assert(lb[1] == b.uuid);
    lemma_decimal_injective(a.device as nat, b.device as nat);
    match (a.metric, b.metric) {
        (Metric::Clock(ia, ca), Metric::Clock(ib, cb)) => {
            assert(la[2] == clock_id_label(ia) && lb[2] == clock_id_label(ib));
            assert(la[3] == clock_type_label(ca) && lb[3] == clock_type_label(cb));
            lemma_clock_id_label_injective(ia, ib);
            lemma_clock_type_label_injective(ca, cb);
        },
        (Metric::ApplicationsClock(ia, ca), Metric::ApplicationsClock(ib, cb)) => {
            assert(la[2] == clock_id_label(ia) && lb[2] == clock_id_label(ib));
            assert(la[3] == clock_type_label(ca) && lb[3] == clock_type_label(cb));
            lemma_clock_id_label_injective(ia, ib);
            lemma_clock_type_label_injective(ca, cb);
        },
        (Metric::MemoryInfo(sa), Metric::MemoryInfo(sb)) => {
            assert(la[2] == memory_state_label(sa) && lb[2] == memory_state_label(sb));
            lemma_memory_state_label_injective(sa, sb);
        },
        (Metric::CurrentClocksThrottleReasons(ra), Metric::CurrentClocksThrottleReasons(rb)) => {
            assert(la[2] == throttle_reason_label(ra.spec_flag()));
            assert(lb[2] == throttle_reason_label(rb.spec_flag()));
            lemma_throttle_reason_label_injective(ra, rb);
        },
        (Metric::MemoryErrorCounters(ea, ca, pa), Metric::MemoryErrorCounters(eb, cb, pb)) => {
            assert(la[2] == memory_error_type_label(ea) && lb[2] == memory_error_type_label(eb));
            assert(la[3] == ecc_counter_type_label(ca) && lb[3] == ecc_counter_type_label(cb));
            assert(la[4] == memory_location_label(pa) && lb[4] == memory_location_label(pb));
            lemma_memory_error_type_label_injective(ea, eb);
            lemma_ecc_counter_type_label_injective(ca, cb);
            lemma_memory_location_label_injective(pa, pb);
        },
        _ => {},
    }
}

/// A series has one label value for each label name of its family.
pub proof fn lemma_label_values_match_names(series: Series)
    ensures
        series.label_values().len() == series.metric.spec_family().spec_label_names().len(),
{
}

/// What a registry holds: the device count and the value of every series
/// written so far.
pub struct MetricsView {
    pub device_count: u32,
    pub values: Map<Series, u64>,
}

/// The registry of current values. A series appears with its first write
/// and keeps its last written value; nothing is ever removed.
pub struct Metrics {
    device_count: u32,
    samples: Vec<Sample>,
    values: Ghost<Map<Series, u64>>,
}

impl View for Metrics {
    type V = MetricsView;

    closed spec fn view(&self) -> MetricsView {
        MetricsView { device_count: self.device_count, values: self.values@ }
    }
}

impl Metrics {
    #[verifier::type_invariant]
    spec fn inv(self) -> bool {
        &&& forall|i: int|
            0 <= i < self.samples@.len() ==> {
                &&& self.values@.contains_key(#[trigger] self.samples@[i].series())
                &&& self.values@[self.samples@[i].series()] == self.samples@[i].value
            }
        &&& forall|k: Series| #[trigger]
            self.values@.contains_key(k) ==> exists|i: int|
                0 <= i < self.samples@.len() && #[trigger] self.samples@[i].series() == k
        &&& forall|i: int, j: int|
            0 <= i < j < self.samples@.len() ==> #[trigger] self.samples@[i].series()
                != #[trigger] self.samples@[j].series()
    }

    /// A registry with no series, whose device count reads zero.
    pub fn new() -> (m: Metrics)
        ensures
            m@.device_count == 0,
            m@.values == Map::<Series, u64>::empty(),
    {
        Metrics { device_count: 0, samples: Vec::new(), values: Ghost(Map::empty()) }
    }

    /// The device count as last set.
    pub fn device_count(&self) -> (n: u32)
        ensures
            n == self@.device_count,
    {
        self.device_count
    }

    /// Sets the device count.
    pub fn set_device_count(&mut self, count: u32)
        ensures
            final(self)@.device_count == count,
            final(self)@.values == old(self)@.values,
    {
        proof {
            use_type_invariant(&*self);
        }
        self.device_count = count;
    }

    fn position(&self, metric: Metric, device: u32, uuid: &String) -> (p: Option<usize>)
        ensures
            match p {
                Some(i) => i < self.samples@.len() && self.samples@[i as int].series() == (Series {
                    metric,
                    device,
                    uuid: uuid@,
                }),
                None => !self@.values.contains_key(Series { metric, device, uuid: uuid@ }),
            },
    {
        proof {
            use_type_invariant(self);
        }
        let ghost key = Series { metric, device, uuid: uuid@ };
        let mut i: usize = 0;
        while i < self.samples.len()
            invariant
                i <= self.samples@.len(),
                key == (Series { metric, device, uuid: uuid@ }),
                forall|j: int| 0 <= j < i ==> (#[trigger] self.samples@[j]).series() != key,
            decreases self.samples@.len() - i,
        {
            let s = &self.samples[i];
            if s.metric == metric && s.device == device && s.uuid == *uuid {
                return Some(i);
            }
            i += 1;
        }
        None
    }

    /// The current value of a series, if it was ever written.
    pub fn get(&self, metric: Metric, device: u32, uuid: &String) -> (v: Option<u64>)
        ensures
            v == (if self@.values.contains_key(Series { metric, device, uuid: uuid@ }) {
                Some(self@.values[Series { metric, device, uuid: uuid@ }])
            } else {
                None
            }),
    {
        proof {
            use_type_invariant(self);
        }
        match self.position(metric, device, uuid) {
            Some(i) => Some(self.samples[i].value),
            None => None,
        }
    }

    /// The registry as it is now, for export.
    pub fn snapshot(&self) -> (s: Snapshot)
        ensures
            s.shows(self@),
    {
        proof {
            use_type_invariant(self);
        }
        let mut samples: Vec<Sample> = Vec::new();
        let mut i: usize = 0;
        while i < self.samples.len()
            invariant
                i <= self.samples@.len(),
                samples@.len() == i,
                forall|j: int|
                    0 <= j < i ==> (#[trigger] samples@[j]).series() == self.samples@[j].series()
                        && samples@[j].value == self.samples@[j].value,
            decreases self.samples@.len() - i,
        {
            let s = &self.samples[i];
            samples.push(
                Sample { metric: s.metric, device: s.device, uuid: s.uuid.clone(), value: s.value },
            );
            i += 1;
        }
        let shot = Snapshot { device_count: self.device_count, samples };
        proof {
            assert forall|k: Series| #[trigger] self@.values.contains_key(k) implies exists|j: int|
                0 <= j < shot.samples@.len() && #[trigger] shot.samples@[j].series() == k by {
                let w: int = choose|j: int|
                    0 <= j < self.samples@.len() && #[trigger] self.samples@[j].series() == k;
                assert(shot.samples@[w].series() == k);
            }
            assert forall|a: int, b: int| 0 <= a < b < shot.samples@.len() implies #[trigger] shot.samples@[a].series()
                != #[trigger] shot.samples@[b].series() by {
                assert(self.samples@[a].series() != self.samples@[b].series());
            }
        }
        shot
    }

    /// Writes a reading where there is one; a reading that failed leaves
    /// the series as it was, present or absent.
    pub fn record(&mut self, metric: Metric, device: u32, uuid: &String, reading: Option<u64>)
        ensures
            final(self)@.device_count == old(self)@.device_count,
            final(self)@.values == (match reading {
                Some(value) => old(self)@.values.insert(
                    Series { metric, device, uuid: uuid@ },
                    value,
                ),
                None => old(self)@.values,
            }),
    {
        match reading {
            Some(value) => self.set(metric, device, uuid, value),
            None => {},
        }
    }

    /// Writes the value of a series; the last write wins.
    pub fn set(&mut self, metric: Metric, device: u32, uuid: &String, value: u64)
        ensures
            final(self)@.device_count == old(self)@.device_count,
            final(self)@.values == old(self)@.values.insert(
                Series { metric, device, uuid: uuid@ },
                value,
            ),
    {
        proof {
            use_type_invariant(&*self);
        }
        let ghost key = Series { metric, device, uuid: uuid@ };
        let sample = Sample { metric, device, uuid: uuid.clone(), value };
        let found = self.position(metric, device, uuid);
        let mut taken = Metrics::new();
        core::mem::swap(self, &mut taken);
        proof {
            use_type_invariant(&taken);
        }
        let Metrics { device_count, mut samples, values } = taken;
        let ghost before = samples@;
        match found {
            Some(i) => {
                samples.set(i, sample);
                assert(samples@[i as int].series() == key);
                assert forall|j: int| 0 <= j < samples@.len() && j != i implies (
                #[trigger] samples@[j]).series() != key by {
                    assert(before[j].series() != before[i as int].series());
                }
            },
            None => {
                samples.push(sample);
                assert(samples@[before.len() as int].series() == key);
                assert forall|j: int| 0 <= j < before.len() implies (#[trigger] samples@[j]).series()
                    != key by {
                    assert(values@.contains_key(before[j].series()));
                }
            },
        }
        let ghost after = values@.insert(key, value);
        proof {
            assert forall|j: int| 0 <= j < samples@.len() implies {
                &&& after.contains_key(#[trigger] samples@[j].series())
                &&& after[samples@[j].series()] == samples@[j].value
            } by {
                if samples@[j].series() != key {
                    assert(samples@[j] == before[j]);
                }
            }
            assert forall|k: Series| #[trigger] after.contains_key(k) implies exists|j: int|
                0 <= j < samples@.len() && #[trigger] samples@[j].series() == k by {
                if k == key {
                    let w: int = match found {
                        Some(i) => i as int,
                        None => before.len() as int,
                    };
                    assert(samples@[w].series() == k);
                } else {
                    let w: int = choose|j: int| 0 <= j < before.len() && #[trigger] before[j].series() == k;
                    assert(samples@[w] == before[w]);
                    assert(samples@[w].series() == k);
                }
            }
            assert forall|a: int, b: int| 0 <= a < b < samples@.len() implies #[trigger] samples@[a].series()
                != #[trigger] samples@[b].series() by {
                if samples@[a].series() != key && samples@[b].series() != key {
                    assert(samples@[a] == before[a]);
                    assert(samples@[b] == before[b]);
                }
            }
        }
        *self = Metrics { device_count, samples, values: Ghost(after) };
    }
}

} // verus!
