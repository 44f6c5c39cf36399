//! The enumerations that label a series, and the exact label strings they
//! are exported under.
use vstd::prelude::*;

verus! {

/// Which clock speed is asked for.
#[derive(Clone, Copy, Debug, PartialEq, Eq, Structural)]
pub enum ClockId {
    Current,
    TargetAppClock,
    DefaultAppClock,
    CustomerMaxBoost,
}

/// A clock domain of a device.
#[derive(Clone, Copy, Debug, PartialEq, Eq, Structural)]
pub enum Clock {
    Graphics,
    SM,
    Memory,
    Video,
}

/// Whether a memory error was corrected.
#[derive(Clone, Copy, Debug, PartialEq, Eq, Structural)]
pub enum MemoryError {
    Corrected,
    Uncorrected,
}

/// The scope over which memory errors are counted.
#[derive(Clone, Copy, Debug, PartialEq, Eq, Structural)]
pub enum EccCounter {
    Volatile,
    Aggregate,
}

/// The memory in which an error was counted.
#[derive(Clone, Copy, Debug, PartialEq, Eq, Structural)]
pub enum MemoryLocation {
    L1Cache,
    L2Cache,
    Device,
    RegisterFile,
    Texture,
    Shared,
    Cbu,
    SRAM,
}

/// The part of device memory that a memory-info series reports.
#[derive(Clone, Copy, Debug, PartialEq, Eq, Structural)]
pub enum MemoryState {
    Free,
    Total,
    Used,
}

/// A set of throttle reasons, one bit per reason.
#[derive(Clone, Copy, Debug, PartialEq, Eq, Structural)]
pub struct ThrottleReasons {
    pub bits: u64,
}

/// One of the ten throttle reasons that are reported.
#[derive(Clone, Copy, Debug, PartialEq, Eq, Structural)]
pub enum ThrottleReason {
    GpuIdle,
    ApplicationsClocksSetting,
    SwPowerCap,
    HwSlowdown,
    SyncBoost,
    SwThermalSlowdown,
    HwThermalSlowdown,
    HwPowerBrakeSlowdown,
    DisplayClockSetting,
    /// Clocks are as high as possible. Its flag has no bit, so no bitmask
    /// has it set.
    Unthrottled,
}

/// Every bit that stands for a throttle reason.
pub const KNOWN_THROTTLE_BITS: u64 = 0x1ff;

impl ThrottleReasons {
    /// Whether a bit of `other` is set in `self`.
    pub open spec fn spec_intersects(self, other: ThrottleReasons) -> bool {
        self.bits & other.bits != 0
    }

    /// Whether a bit of `other` is set in `self`. The empty set shares no
    /// bit with any set.
    #[verifier::when_used_as_spec(spec_intersects)]
    pub fn intersects(self, other: ThrottleReasons) -> (b: bool)
        ensures
            b == self.spec_intersects(other),
    {
        self.bits & other.bits != 0
    }
}

impl ThrottleReason {
    /// The flag of this reason; `Unthrottled` has the empty flag.
    pub open spec fn spec_flag(self) -> ThrottleReasons {
        match self {
            ThrottleReason::GpuIdle => ThrottleReasons { bits: 0x1 },
            ThrottleReason::ApplicationsClocksSetting => ThrottleReasons { bits: 0x2 },
            ThrottleReason::SwPowerCap => ThrottleReasons { bits: 0x4 },
            ThrottleReason::HwSlowdown => ThrottleReasons { bits: 0x8 },
            ThrottleReason::SyncBoost => ThrottleReasons { bits: 0x10 },
            ThrottleReason::SwThermalSlowdown => ThrottleReasons { bits: 0x20 },
            ThrottleReason::HwThermalSlowdown => ThrottleReasons { bits: 0x40 },
            ThrottleReason::HwPowerBrakeSlowdown => ThrottleReasons { bits: 0x80 },
            ThrottleReason::DisplayClockSetting => ThrottleReasons { bits: 0x100 },
            ThrottleReason::Unthrottled => ThrottleReasons { bits: 0 },
        }
    }

    /// The flag of this reason.
    #[verifier::when_used_as_spec(spec_flag)]
    pub fn flag(self) -> (f: ThrottleReasons)
        ensures
            f == self.spec_flag(),
    {
        match self {
            ThrottleReason::GpuIdle => ThrottleReasons { bits: 0x1 },
            ThrottleReason::ApplicationsClocksSetting => ThrottleReasons { bits: 0x2 },
            ThrottleReason::SwPowerCap => ThrottleReasons { bits: 0x4 },
            ThrottleReason::HwSlowdown => ThrottleReasons { bits: 0x8 },
            ThrottleReason::SyncBoost => ThrottleReasons { bits: 0x10 },
            ThrottleReason::SwThermalSlowdown => ThrottleReasons { bits: 0x20 },
            ThrottleReason::HwThermalSlowdown => ThrottleReasons { bits: 0x40 },
            ThrottleReason::HwPowerBrakeSlowdown => ThrottleReasons { bits: 0x80 },
            ThrottleReason::DisplayClockSetting => ThrottleReasons { bits: 0x100 },
            ThrottleReason::Unthrottled => ThrottleReasons { bits: 0 },
        }
    }
}

pub open spec fn clock_id_label(cid: ClockId) -> Seq<char> {
    match cid {
        ClockId::Current => "current"@,
        ClockId::TargetAppClock => "app_clock_target"@,
        ClockId::DefaultAppClock => "app_clock_default"@,
        ClockId::CustomerMaxBoost => "customer_boost_max"@,
    }
}

pub open spec fn clock_type_label(ctype: Clock) -> Seq<char> {
    match ctype {
        Clock::Graphics => "graphics"@,
        Clock::SM => "sm"@,
        Clock::Memory => "mem"@,
        Clock::Video => "video"@,
    }
}

pub open spec fn throttle_reason_label(reason: ThrottleReasons) -> Seq<char> {
    if reason.bits == 0x1 {
        "gpu_idle"@
    } else if reason.bits == 0x2 {
        "applications_clocks_setting"@
    } else if reason.bits == 0x4 {
        "sw_power_cap"@
    } else if reason.bits == 0x8 {
        "hw_slowdown"@
    } else if reason.bits == 0x10 {
        "sync_boost"@
    } else if reason.bits == 0x20 {
        "sw_thermal_slowdown"@
    } else if reason.bits == 0x40 {
        "hw_thermal_slowdown"@
    } else if reason.bits == 0x80 {
        "hw_power_brake_slowdown"@
    } else if reason.bits == 0x100 {
        "display_clock_setting"@
    } else if reason.bits == 0 {
        "none"@
    } else {
        "unknown"@
    }
}

pub open spec fn memory_error_type_label(e: MemoryError) -> Seq<char> {
    match e {
        MemoryError::Corrected => "corrected"@,
        MemoryError::Uncorrected => "uncorrected"@,
    }
}

pub open spec fn ecc_counter_type_label(c: EccCounter) -> Seq<char> {
    match c {
        EccCounter::Aggregate => "aggregate"@,
        EccCounter::Volatile => "volatile"@,
    }
}

pub open spec fn memory_location_label(m: MemoryLocation) -> Seq<char> {
    match m {
        MemoryLocation::Cbu => "cbu"@,
        MemoryLocation::Device => "device"@,
        MemoryLocation::L1Cache => "l1_cache"@,
        MemoryLocation::L2Cache => "l2_cache"@,
        MemoryLocation::RegisterFile => "register_file"@,
        MemoryLocation::Shared => "shared"@,
        MemoryLocation::SRAM => "sram"@,
        MemoryLocation::Texture => "texture"@,
    }
}

pub open spec fn memory_state_label(s: MemoryState) -> Seq<char> {
    match s {
        MemoryState::Free => "free"@,
        MemoryState::Total => "total"@,
        MemoryState::Used => "used"@,
    }
}

/// The `clock_id` label of a clock series.
pub fn clock_id_str(cid: ClockId) -> (s: &'static str)
    ensures
        s@ == clock_id_label(cid),
{
    match cid {
        ClockId::Current => "current",
        ClockId::TargetAppClock => "app_clock_target",
        ClockId::DefaultAppClock => "app_clock_default",
        ClockId::CustomerMaxBoost => "customer_boost_max",
    }
}

/// The `type` label of a clock series.
pub fn clock_type_str(ctype: Clock) -> (s: &'static str)
    ensures
        s@ == clock_type_label(ctype),
{
    match ctype {
        Clock::Graphics => "graphics",
        Clock::SM => "sm",
        Clock::Memory => "mem",
        Clock::Video => "video",
    }
}

/// The `reason` label of a throttle-reason flag: the name of the reason
/// when exactly its flag is given, `unknown` for any other set of bits.
pub fn throttle_reason_str(reason: ThrottleReasons) -> (s: &'static str)
    ensures
        s@ == throttle_reason_label(reason),
{
    if reason.bits == 0x1 {
        "gpu_idle"
    } else if reason.bits == 0x2 {
        "applications_clocks_setting"
    } else if reason.bits == 0x4 {
        "sw_power_cap"
    } else if reason.bits == 0x8 {
        "hw_slowdown"
    } else if reason.bits == 0x10 {
        "sync_boost"
    } else if reason.bits == 0x20 {
        "sw_thermal_slowdown"
    } else if reason.bits == 0x40 {
        "hw_thermal_slowdown"
    } else if reason.bits == 0x80 {
        "hw_power_brake_slowdown"
    } else if reason.bits == 0x100 {
        "display_clock_setting"
    } else if reason.bits == 0 {
        "none"
    } else {
        "unknown"
    }
}

/// The `mem_error` label of a memory-error series.
pub fn memory_error_type_str(e: &MemoryError) -> (s: &'static str)
    ensures
        s@ == memory_error_type_label(*e),
{
    match e {
        MemoryError::Corrected => "corrected",
        MemoryError::Uncorrected => "uncorrected",
    }
}

/// The `ecc_counter` label of a memory-error series.
pub fn ecc_counter_type_str(c: &EccCounter) -> (s: &'static str)
    ensures
        s@ == ecc_counter_type_label(*c),
{
    match c {
        EccCounter::Aggregate => "aggregate",
        EccCounter::Volatile => "volatile",
    }
}

/// The `mem_location` label of a memory-error series.
pub fn memory_location_str(m: &MemoryLocation) -> (s: &'static str)
    ensures
        s@ == memory_location_label(*m),
{
    match m {
        MemoryLocation::Cbu => "cbu",
        MemoryLocation::Device => "device",
        MemoryLocation::L1Cache => "l1_cache",
        MemoryLocation::L2Cache => "l2_cache",
        MemoryLocation::RegisterFile => "register_file",
        MemoryLocation::Shared => "shared",
        MemoryLocation::SRAM => "sram",
        MemoryLocation::Texture => "texture",
    }
}

/// The `state` label of a memory-info series.
pub fn memory_state_str(s: MemoryState) -> (r: &'static str)
    ensures
        r@ == memory_state_label(s),
{
    match s {
        MemoryState::Free => "free",
        MemoryState::Total => "total",
        MemoryState::Used => "used",
    }
}

/// Two clock ids with the same label are the same clock id.
pub proof fn lemma_clock_id_label_injective(a: ClockId, b: ClockId)
    requires
        clock_id_label(a) == clock_id_label(b),
    ensures
        a == b,
{
    reveal_strlit("current");
    reveal_strlit("app_clock_target");
    reveal_strlit("app_clock_default");
    reveal_strlit("customer_boost_max");
    assert("current"@.len() == 7);
    assert("app_clock_target"@.len() == 16);
    assert("app_clock_default"@.len() == 17);
    assert("customer_boost_max"@.len() == 18);
}

/// Two clock domains with the same label are the same clock domain.
pub proof fn lemma_clock_type_label_injective(a: Clock, b: Clock)
    requires
        clock_type_label(a) == clock_type_label(b),
    ensures
        a == b,
{
    reveal_strlit("graphics");
    reveal_strlit("sm");
    reveal_strlit("mem");
    reveal_strlit("video");
    assert("graphics"@.len() == 8);
    assert("sm"@.len() == 2);
    assert("mem"@.len() == 3);
    assert("video"@.len() == 5);
}

/// Two memory states with the same label are the same memory state.
pub proof fn lemma_memory_state_label_injective(a: MemoryState, b: MemoryState)
    requires
        memory_state_label(a) == memory_state_label(b),
    ensures
        a == b,
{
    reveal_strlit("free");
    reveal_strlit("total");
    reveal_strlit("used");
    assert("free"@.len() == 4);
    assert("total"@.len() == 5);
    assert("used"@.len() == 4);
    assert("free"@[0] == 'f');
    assert("used"@[0] == 'u');
}

/// Two error types with the same label are the same error type.
pub proof fn lemma_memory_error_type_label_injective(a: MemoryError, b: MemoryError)
    requires
        memory_error_type_label(a) == memory_error_type_label(b),
    ensures
        a == b,
{
    reveal_strlit("corrected");
    reveal_strlit("uncorrected");
    assert("corrected"@.len() == 9);
    assert("uncorrected"@.len() == 11);
}

/// Two counter scopes with the same label are the same counter scope.
pub proof fn lemma_ecc_counter_type_label_injective(a: EccCounter, b: EccCounter)
    requires
        ecc_counter_type_label(a) == ecc_counter_type_label(b),
    ensures
        a == b,
{
    reveal_strlit("aggregate");
    reveal_strlit("volatile");
    assert("aggregate"@.len() == 9);
    assert("volatile"@.len() == 8);
}

/// Two memory locations with the same label are the same memory location.
pub proof fn lemma_memory_location_label_injective(a: MemoryLocation, b: MemoryLocation)
    requires
        memory_location_label(a) == memory_location_label(b),
    ensures
        a == b,
{
    reveal_strlit("cbu");
    reveal_strlit("device");
    reveal_strlit("l1_cache");
    reveal_strlit("l2_cache");
    reveal_strlit("register_file");
    reveal_strlit("shared");
    reveal_strlit("sram");
    reveal_strlit("texture");
    assert("cbu"@.len() == 3);
    assert("device"@.len() == 6);
    assert("l1_cache"@.len() == 8);
    assert("l2_cache"@.len() == 8);
    assert("register_file"@.len() == 13);
    assert("shared"@.len() == 6);
    assert("sram"@.len() == 4);
    assert("texture"@.len() == 7);
    assert("device"@[0] == 'd');
    assert("shared"@[0] == 's');
    assert("l1_cache"@[1] == '1');
    assert("l2_cache"@[1] == '2');
}

/// Two of the ten reasons with the same label are the same reason, and
/// none of them is labelled `unknown`.
pub proof fn lemma_throttle_reason_label_injective(a: ThrottleReason, b: ThrottleReason)
    requires
        throttle_reason_label(a.spec_flag()) == throttle_reason_label(b.spec_flag()),
    ensures
        a == b,
        throttle_reason_label(a.spec_flag()) != "unknown"@,
{
    reveal_strlit("gpu_idle");
    reveal_strlit("applications_clocks_setting");
    reveal_strlit("sw_power_cap");
    reveal_strlit("hw_slowdown");
    reveal_strlit("sync_boost");
    reveal_strlit("sw_thermal_slowdown");
    reveal_strlit("hw_thermal_slowdown");
    reveal_strlit("hw_power_brake_slowdown");
    reveal_strlit("display_clock_setting");
    reveal_strlit("none");
    reveal_strlit("unknown");
    assert("gpu_idle"@.len() == 8);
    assert("applications_clocks_setting"@.len() == 27);
    assert("sw_power_cap"@.len() == 12);
    assert("hw_slowdown"@.len() == 11);
    assert("sync_boost"@.len() == 10);
    assert("sw_thermal_slowdown"@.len() == 19);
    assert("hw_thermal_slowdown"@.len() == 19);
    assert("hw_power_brake_slowdown"@.len() == 23);
    assert("display_clock_setting"@.len() == 21);
    assert("none"@.len() == 4);
    assert("unknown"@.len() == 7);
    assert("sw_thermal_slowdown"@[0] == 's');
    assert("hw_thermal_slowdown"@[0] == 'h');
}

} // verus!
