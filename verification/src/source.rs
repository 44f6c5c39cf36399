//! The device source: the calls into the device-management library.
//!
//! Every function here hands one call through and turns what comes back
//! into plain values. What a device answers depends on the hardware, so
//! each call may succeed or fail on its own, and nothing is promised of a
//! value that was read beyond what is said below.
use vstd::prelude::*;
use nvml_wrapper::enum_wrappers::device as nv;
use nvml_wrapper::error::NvmlError;
use nvml_wrapper::{Device, Nvml};
use crate::readings::{EncoderStats, EncoderType, FbcStats, MemoryInfo, Utilization};
use crate::str_helpers::{
    Clock, ClockId, EccCounter, KNOWN_THROTTLE_BITS, MemoryError, MemoryLocation,
    ThrottleReasons,
};

verus! {

/// `nvml_wrapper::Nvml`, the handle of the initialized library.
#[verifier::external_type_specification]
#[verifier::external_body]
pub struct ExNvml(Nvml);

/// `nvml_wrapper::Device`, the handle of one device, valid while the
/// library handle it came from is.
#[verifier::external_type_specification]
#[verifier::external_body]
pub struct ExDevice<'nvml>(Device<'nvml>);

/// `nvml_wrapper::error::NvmlError`, the error of every call.
#[verifier::external_type_specification]
#[verifier::external_body]
pub struct ExNvmlError(NvmlError);

/// `Nvml::device_count`: the number of devices in the system. Nothing is
/// claimed of what comes back.
#[verifier::external_body]
pub(crate) fn device_count(nvml: &Nvml) -> Result<u32, NvmlError> {
    nvml.device_count()
}

/// `Nvml::device_by_index`: the handle of the device at an index. Nothing
/// is claimed of what comes back.
#[verifier::external_body]
pub(crate) fn device_by_index<'a>(nvml: &'a Nvml, index: u32) -> Result<Device<'a>, NvmlError> {
    nvml.device_by_index(index)
}

/// `Device::uuid`: the UUID of the device. Nothing is claimed of what
/// comes back.
#[verifier::external_body]
pub(crate) fn uuid(device: &Device) -> Result<String, NvmlError> {
    device.uuid()
}

/// `Device::temperature` for the GPU sensor, in degrees Celsius. Nothing
/// is claimed of what comes back.
#[verifier::external_body]
pub(crate) fn temperature(device: &Device) -> Result<u32, NvmlError> {
    device.temperature(nv::TemperatureSensor::Gpu)
}

/// `Device::power_usage`: the power draw in milliwatts. Nothing is claimed
/// of what comes back.
#[verifier::external_body]
pub(crate) fn power_usage(device: &Device) -> Result<u32, NvmlError> {
    device.power_usage()
}

/// `Device::running_compute_processes_count`: how many processes have a
/// compute context on the device. Nothing is claimed of what comes back.
#[verifier::external_body]
pub(crate) fn running_compute_processes_count(device: &Device) -> Result<u32, NvmlError> {
    device.running_compute_processes_count()
}

/// `Device::running_graphics_processes_count`: how many processes have a
/// graphics context on the device. Nothing is claimed of what comes back.
#[verifier::external_body]
pub(crate) fn running_graphics_processes_count(device: &Device) -> Result<u32, NvmlError> {
    device.running_graphics_processes_count()
}

/// `Device::current_pcie_link_width`: the width of the PCIe link at
/// present. Nothing is claimed of what comes back.
#[verifier::external_body]
pub(crate) fn current_pcie_link_width(device: &Device) -> Result<u32, NvmlError> {
    device.current_pcie_link_width()
}

/// `Device::current_pcie_link_gen`: the generation of the PCIe link at
/// present. Nothing is claimed of what comes back.
#[verifier::external_body]
pub(crate) fn current_pcie_link_gen(device: &Device) -> Result<u32, NvmlError> {
    device.current_pcie_link_gen()
}

/// `Device::max_pcie_link_width`: the greatest width of the PCIe link.
/// Nothing is claimed of what comes back.
#[verifier::external_body]
pub(crate) fn max_pcie_link_width(device: &Device) -> Result<u32, NvmlError> {
    device.max_pcie_link_width()
}

/// `Device::max_pcie_link_gen`: the greatest generation of the PCIe link.
/// Nothing is claimed of what comes back.
#[verifier::external_body]
pub(crate) fn max_pcie_link_gen(device: &Device) -> Result<u32, NvmlError> {
    device.max_pcie_link_gen()
}

/// `Device::is_display_active`: whether a display is active on the device.
/// Nothing is claimed of what comes back.
#[verifier::external_body]
pub(crate) fn is_display_active(device: &Device) -> Result<bool, NvmlError> {
    device.is_display_active()
}

/// `Device::is_display_connected`: whether a display is connected to the
/// device. Nothing is claimed of what comes back.
#[verifier::external_body]
pub(crate) fn is_display_connected(device: &Device) -> Result<bool, NvmlError> {
    device.is_display_connected()
}

/// `Device::utilization_rates`, field by field. Nothing is claimed of
/// what comes back.
#[verifier::external_body]
pub(crate) fn utilization_rates(device: &Device) -> Result<Utilization, NvmlError> {
    device.utilization_rates().map(|u| Utilization { gpu: u.gpu, memory: u.memory })
}

/// `Device::encoder_stats`, field by field. Nothing is claimed of what
/// comes back.
#[verifier::external_body]
pub(crate) fn encoder_stats(device: &Device) -> Result<EncoderStats, NvmlError> {
    device.encoder_stats().map(
        |s| EncoderStats {
            session_count: s.session_count,
            average_fps: s.average_fps,
            average_latency: s.average_latency,
        },
    )
}

/// `Device::encoder_capacity` for one codec. Nothing is claimed of what
/// comes back.
#[verifier::external_body]
pub(crate) fn encoder_capacity(device: &Device, for_type: EncoderType) -> Result<u32, NvmlError> {
    device.encoder_capacity(
        match for_type {
            EncoderType::H264 => nv::EncoderType::H264,
            EncoderType::HEVC => nv::EncoderType::HEVC,
        },
    )
}

/// `Device::fbc_stats`, field by field. Nothing is claimed of what comes
/// back.
#[verifier::external_body]
pub(crate) fn fbc_stats(device: &Device) -> Result<FbcStats, NvmlError> {
    device.fbc_stats().map(
        |s| FbcStats {
            sessions_count: s.sessions_count,
            average_fps: s.average_fps,
            average_latency: s.average_latency,
        },
    )
}

/// `Device::memory_info`: free, total and used memory in bytes. Nothing
/// is claimed of what comes back.
#[verifier::external_body]
pub(crate) fn memory_info(device: &Device) -> Result<MemoryInfo, NvmlError> {
    device.memory_info().map(|m| MemoryInfo { free: m.free, total: m.total, used: m.used })
}

/// `Device::clock`: the speed of one clock domain for one clock id.
/// Nothing is claimed of what comes back.
#[verifier::external_body]
pub(crate) fn clock(device: &Device, clock_type: Clock, clock_id: ClockId) -> Result<u32, NvmlError> {
    let domain = match clock_type {
        Clock::Graphics => nv::Clock::Graphics,
        Clock::SM => nv::Clock::SM,
        Clock::Memory => nv::Clock::Memory,
        Clock::Video => nv::Clock::Video,
    };
    let id = match clock_id {
        ClockId::Current => nv::ClockId::Current,
        ClockId::TargetAppClock => nv::ClockId::TargetAppClock,
        ClockId::DefaultAppClock => nv::ClockId::DefaultAppClock,
        ClockId::CustomerMaxBoost => nv::ClockId::CustomerMaxBoost,
    };
    device.clock(domain, id)
}

/// `Device::current_throttle_reasons`, as its bits. The call drops every
/// bit that stands for no reason, so none is set in what comes back.
#[verifier::external_body]
pub(crate) fn current_throttle_reasons(device: &Device) -> (r: Result<ThrottleReasons, NvmlError>)
    ensures
        r matches Ok(reasons) ==> reasons.bits & !KNOWN_THROTTLE_BITS == 0,
{
    device.current_throttle_reasons().map(|reasons| ThrottleReasons { bits: reasons.bits() })
}

/// `Device::is_ecc_enabled`: whether ECC is enabled at present. Nothing is
/// claimed of what comes back.
#[verifier::external_body]
pub(crate) fn is_ecc_enabled(device: &Device) -> Result<bool, NvmlError> {
    device.is_ecc_enabled().map(|state| state.currently_enabled)
}

/// `Device::memory_error_counter`: one counter, by error type, counter
/// scope and memory location. Nothing is claimed of what comes back.
#[verifier::external_body]
pub(crate) fn memory_error_counter(
    device: &Device,
    error_type: MemoryError,
    counter_type: EccCounter,
    location: MemoryLocation,
) -> Result<u64, NvmlError> {
    let error = match error_type { MemoryError::Corrected => nv::MemoryError::Corrected, MemoryError::Uncorrected => nv::MemoryError::Uncorrected };
    let counter = match counter_type { EccCounter::Volatile => nv::EccCounter::Volatile, EccCounter::Aggregate => nv::EccCounter::Aggregate };
    let place = match location {
        MemoryLocation::L1Cache => nv::MemoryLocation::L1Cache,
        MemoryLocation::L2Cache => nv::MemoryLocation::L2Cache,
        MemoryLocation::Device => nv::MemoryLocation::Device,
        MemoryLocation::RegisterFile => nv::MemoryLocation::RegisterFile,
        MemoryLocation::Texture => nv::MemoryLocation::Texture,
        MemoryLocation::Shared => nv::MemoryLocation::Shared,
        MemoryLocation::Cbu => nv::MemoryLocation::Cbu,
        MemoryLocation::SRAM => nv::MemoryLocation::SRAM,
    };
    device.memory_error_counter(error, counter, place)
}

} // verus!
