//! A device of the system, and what each of its queries and commands hands
//! to NVML and reads back.
//!
//! Every operation comes as two functions. The one whose name ends in
//! `_call` takes the operation's arguments and says which entry point of NVML
//! is to be called with what. The other, under the operation's own name,
//! takes what that call returned and gives the operation's result. Between
//! the two stands the call itself, which is made by whoever links NVML.
//! Nothing is kept from one operation to the next.

use vstd::prelude::*;
use vstd::slice::slice_to_vec;
use core::marker::PhantomData;
use crate::buffers::{decode_text, filled, filled_len, take_filled, text_of, view_result};
use crate::enum_wrappers::{
    enabled_from, enabled_of, state_from_bool, state_of, Api, Brand, Clock, ComputeMode,
    DriverModel, EccCounter, InfoROM, MemoryError, MemoryLocation, OperationMode,
    PcieUtilCounter, PerformancePolicy, PerformanceState, RetirementCause, TemperatureSensor,
    TemperatureThreshold, TopologyLevel,
};
use crate::errors::{after, nvml_try, recognized, status_kind, status_result, Error, ErrorKind};
use crate::event::{event_types_of, EventSet, EventTypes, Registration};
use crate::native;
use crate::native::{
    NativeAccountingStats, NativeBar1Memory, NativeBridgeChipHierarchy, NativeCall,
    NativeEccErrorCounts, NativeMemory, NativePciInfo, NativeProcessInfo, NativeUtilization,
    NativeViolationTime,
};
use crate::struct_wrappers::{
    processes_from, processes_of, AccountingStats, BAR1MemoryInfo, BridgeChipHierarchy,
    EccErrorCounts, MemoryInfo, PciInfo, ProcessInfo, Utilization, ViolationTime,
};
use crate::structs::{
    AutoBoostClocksEnabledInfo, DecoderUtilizationInfo, DriverModels, EccModeInfo,
    EncoderUtilizationInfo, OperationModeInfo, PowerManagementConstraints,
};
use crate::NVML;

verus! {

/// A device of the system (one GPU).
///
/// A `Device` comes from a session and borrows it: the session cannot be shut
/// down while a device of it is still around.
#[derive(Debug, PartialEq, Eq)]
pub struct Device<'nvml> {
    device: usize,
    _phantom: PhantomData<&'nvml NVML>,
}

impl<'nvml> View for Device<'nvml> {
    type V = usize;

    /// The handle by which NVML knows the device.
    closed spec fn view(&self) -> usize {
        self.device
    }
}

/// The handles of a list of devices.
pub open spec fn handles_of(devices: Seq<Device>) -> Seq<usize> {
    Seq::new(devices.len(), |i: int| devices[i]@)
}

/// A result that holds a list of devices, seen through their handles.
pub open spec fn view_devices(result: Result<Vec<Device>, Error>) -> Result<Seq<usize>, Error> {
    match result {
        Ok(devices) => Ok(handles_of(devices@)),
        Err(error) => Err(error),
    }
}

/// The devices whose handles a call wrote which reported `count` of them.
pub(crate) fn devices_from<'nvml>(count: u32, handles: &[usize]) -> (devices: Vec<Device<'nvml>>)
    ensures
        handles_of(devices@) == filled(count, handles@),
{
    let n: usize = filled_len(count, handles.len());
    let mut devices: Vec<Device<'nvml>> = Vec::new();
    let mut i: usize = 0;
    while i < n
        invariant
            i <= n,
            n == filled(count, handles@).len(),
            n <= handles@.len(),
            devices@.len() == i,
            forall|j: int| 0 <= j < i ==> (#[trigger] devices@[j])@ == handles@[j],
        decreases n - i,
    {
        devices.push(Device::bound(handles[i]));
        i += 1;
    }
    assert(handles_of(devices@) =~= filled(count, handles@));
    devices
}

impl<'nvml> Device<'nvml> {
    /// The device that NVML knows by `device`, within the session that the
    /// caller takes `'nvml` from.
    pub(crate) fn bound(device: usize) -> (created: Device<'nvml>)
        ensures
            created@ == device,
    {
        Device { device, _phantom: PhantomData }
    }

    /// The device of session `nvml` that NVML knows by `device`.
    pub fn new(nvml: &'nvml NVML, device: usize) -> (created: Device<'nvml>)
        ensures
            created@ == device,
    {
        Device { device, _phantom: PhantomData }
    }

    /// The handle by which NVML knows this device. It is only good for
    /// handing back to NVML, and only while the session lasts.
    pub fn c_device(&self) -> (device: usize)
        ensures
            device == self@,
    {
        self.device
    }

    /// What to hand to NVML for [`Device::register_events`]: the arguments
    /// of `nvmlDeviceRegisterEvents`.
    pub fn register_events_call(&self, events: &EventTypes, set: &EventSet) -> (call: NativeCall)
        ensures
            call == (NativeCall::DeviceRegisterEvents {
                device: self@,
                event_types: events@,
                set: set@,
            }),
    {
        NativeCall::DeviceRegisterEvents {
            device: self.device,
            event_types: events.bits(),
            set: set.c_set(),
        }
    }

    /// Starts recording the given event types of this device into the set.
    ///
    /// Reads the status that `nvmlDeviceRegisterEvents` returned, and hands
    /// the set back in one of three ways. On success the device is
    /// registered. On the status `Unknown` NVML has left the set in an
    /// undefined state: it must be destroyed at once, by the call that
    /// [`EventSet::destroy_call`] describes, and
    /// [`Device::register_events_failed`] then gives the error. On any
    /// other status the set is as it was before.
    pub fn register_events(&self, set: EventSet<'nvml>, status: u32) -> (registration:
        Registration<'nvml>)
        ensures
            registration@ == Registration::of(set@, status),
    {
        match nvml_try(status) {
            Ok(()) => Registration::Registered(set),
            Err(error) => match error.kind() {
                ErrorKind::Unknown => Registration::Undefined(set),
                _ => Registration::Refused(error, set),
            },
        }
    }

    /// The error of a registration that left its set undefined, once the set
    /// has been destroyed.
    ///
    /// Takes the set, which is thereby gone, and the status that
    /// `nvmlEventSetFree` returned for it. The error is `Unknown`, as the
    /// registration failed; where destroying the set failed too, that
    /// failure is chained onto it.
    pub fn register_events_failed(&self, set: EventSet<'nvml>, status: u32) -> (error: Error)
        ensures
            error == (Error { kind: ErrorKind::Unknown, cleanup: status_kind(status) }),
    {
        let failed = Error::new(ErrorKind::Unknown);
        match set.destroy(status) {
            Ok(()) => failed,
            Err(cleanup) => failed.chain(cleanup.kind()),
        }
    }

    /// What to hand to NVML for [`Device::clear_cpu_affinity`]:
    /// `nvmlDeviceClearCpuAffinity` and its arguments, without the places that
    /// it writes to.
    pub fn clear_cpu_affinity_call(&self) -> (call: NativeCall)
        ensures
            call == (NativeCall::DeviceClearCpuAffinity { device: self@ }),
    {
        NativeCall::DeviceClearCpuAffinity { device: self.device }
    }

    /// Clears all affinity bindings of the calling thread.
    ///
    /// Reads what `nvmlDeviceClearCpuAffinity` returned. The status is all
    /// that the call returns: success, or the error.
    pub fn clear_cpu_affinity(&self, status: u32) -> (result: Result<(), Error>)
        ensures
            result == status_result(status),
    {
        nvml_try(status)
    }

    /// What to hand to NVML for [`Device::is_api_restricted`]:
    /// `nvmlDeviceGetAPIRestriction` and its arguments, without the places
    /// that it writes to.
    pub fn is_api_restricted_call(&self, api: Api) -> (call: NativeCall)
        ensures
            call == (NativeCall::DeviceGetApiRestriction { device: self@, api: api.native() }),
    {
        NativeCall::DeviceGetApiRestriction { device: self.device, api: api.into_c() }
    }

    /// Whether the given API is restricted to root users.
    ///
    /// Reads what `nvmlDeviceGetAPIRestriction` returned. A status other than
    /// success is the error, and nothing that the call wrote is looked at. On
    /// success the integer that it wrote has to be one of the two enable
    /// states; `UnrecognizedEnumVariant` where it is not.
    pub fn is_api_restricted(
        &self,
        status: u32,
        restricted_state: u32,
    ) -> (result: Result<bool, Error>)
        ensures
            result == after(status, enabled_of(restricted_state)),
    {
        nvml_try(status)?;
        enabled_from(restricted_state)
    }

    /// What to hand to NVML for [`Device::applications_clock`]:
    /// `nvmlDeviceGetApplicationsClock` and its arguments, without the places
    /// that it writes to.
    pub fn applications_clock_call(&self, clock_type: Clock) -> (call: NativeCall)
        ensures
            call == (NativeCall::DeviceGetApplicationsClock {
                device: self@,
                clock_type: clock_type.native(),
            }),
    {
        NativeCall::DeviceGetApplicationsClock {
            device: self.device,
            clock_type: clock_type.into_c(),
        }
    }

    /// The clock (in MHz) that applications will run at, unless the device is
    /// overspecified.
    ///
    /// Reads what `nvmlDeviceGetApplicationsClock` returned. A status other
    /// than success is the error, and nothing that the call wrote is looked
    /// at. On success the number that it wrote is the result.
    pub fn applications_clock(&self, status: u32, clock: u32) -> (result: Result<u32, Error>)
        ensures
            result == after(status, Ok(clock)),
    {
        nvml_try(status)?;
        Ok(clock)
    }

    /// What to hand to NVML for [`Device::auto_boosted_clocks_enabled`]:
    /// `nvmlDeviceGetAutoBoostedClocksEnabled` and its arguments, without the
    /// places that it writes to.
    pub fn auto_boosted_clocks_enabled_call(&self) -> (call: NativeCall)
        ensures
            call == (NativeCall::DeviceGetAutoBoostedClocksEnabled { device: self@ }),
    {
        NativeCall::DeviceGetAutoBoostedClocksEnabled { device: self.device }
    }

    /// The current and the default state of auto boosted clocks.
    ///
    /// Reads what `nvmlDeviceGetAutoBoostedClocksEnabled` returned. A status
    /// other than success is the error, and nothing that the call wrote is
    /// looked at. On success each of the two integers that it wrote has to be
    /// one that is known; `UnrecognizedEnumVariant` where one is not.
    pub fn auto_boosted_clocks_enabled(
        &self,
        status: u32,
        is_enabled: u32,
        is_enabled_default: u32,
    ) -> (result: Result<AutoBoostClocksEnabledInfo, Error>)
        ensures
            result == after(status, AutoBoostClocksEnabledInfo::of(is_enabled, is_enabled_default)),
    {
        nvml_try(status)?;
        AutoBoostClocksEnabledInfo::try_from(is_enabled, is_enabled_default)
    }

    /// What to hand to NVML for [`Device::bar1_memory_info`]:
    /// `nvmlDeviceGetBAR1MemoryInfo` and its arguments, without the places
    /// that it writes to.
    pub fn bar1_memory_info_call(&self) -> (call: NativeCall)
        ensures
            call == (NativeCall::DeviceGetBar1MemoryInfo { device: self@ }),
    {
        NativeCall::DeviceGetBar1MemoryInfo { device: self.device }
    }

    /// The total, free and used size of BAR1 memory.
    ///
    /// Reads what `nvmlDeviceGetBAR1MemoryInfo` returned. A status other than
    /// success is the error, and nothing that the call wrote is looked at. On
    /// success the result is built from the struct that it filled in.
    pub fn bar1_memory_info(
        &self,
        status: u32,
        mem_info: NativeBar1Memory,
    ) -> (result: Result<BAR1MemoryInfo, Error>)
        ensures
            result == after(status, Ok(BAR1MemoryInfo::of(mem_info))),
    {
        nvml_try(status)?;
        Ok(BAR1MemoryInfo::from(mem_info))
    }

    /// What to hand to NVML for [`Device::board_id`]: `nvmlDeviceGetBoardId`
    /// and its arguments, without the places that it writes to.
    pub fn board_id_call(&self) -> (call: NativeCall)
        ensures
            call == (NativeCall::DeviceGetBoardId { device: self@ }),
    {
        NativeCall::DeviceGetBoardId { device: self.device }
    }

    /// The id of the board that this device is on. Devices with the same id
    /// are connected to the same PLX.
    ///
    /// Reads what `nvmlDeviceGetBoardId` returned. A status other than success
    /// is the error, and nothing that the call wrote is looked at. On success
    /// the number that it wrote is the result.
    pub fn board_id(&self, status: u32, id: u32) -> (result: Result<u32, Error>)
        ensures
            result == after(status, Ok(id)),
    {
        nvml_try(status)?;
        Ok(id)
    }

    /// What to hand to NVML for [`Device::brand`]: `nvmlDeviceGetBrand` and
    /// its arguments, without the places that it writes to.
    pub fn brand_call(&self) -> (call: NativeCall)
        ensures
            call == (NativeCall::DeviceGetBrand { device: self@ }),
    {
        NativeCall::DeviceGetBrand { device: self.device }
    }

    /// The brand of this device.
    ///
    /// Reads what `nvmlDeviceGetBrand` returned. A status other than success
    /// is the error, and nothing that the call wrote is looked at. On success
    /// the integer that it wrote has to be one that is known;
    /// `UnrecognizedEnumVariant` where it is not.
    pub fn brand(&self, status: u32, brand: u32) -> (result: Result<Brand, Error>)
        ensures
            result == after(status, recognized(Brand::from_native(brand))),
    {
        nvml_try(status)?;
        Brand::try_from(brand)
    }

    /// What to hand to NVML for [`Device::bridge_chip_info`]:
    /// `nvmlDeviceGetBridgeChipInfo` and its arguments, without the places
    /// that it writes to.
    pub fn bridge_chip_info_call(&self) -> (call: NativeCall)
        ensures
            call == (NativeCall::DeviceGetBridgeChipInfo { device: self@ }),
    {
        NativeCall::DeviceGetBridgeChipInfo { device: self.device }
    }

    /// The bridge chips on the board of this device. Only multi-GPU boards
    /// have any.
    ///
    /// Reads what `nvmlDeviceGetBridgeChipInfo` returned. A status other than
    /// success is the error, and nothing that the call wrote is looked at. On
    /// success the result is built from the struct that it filled in, if that
    /// can be read.
    pub fn bridge_chip_info(
        &self,
        status: u32,
        info: NativeBridgeChipHierarchy,
    ) -> (result: Result<BridgeChipHierarchy, Error>)
        ensures
            view_result(result) == after(status, BridgeChipHierarchy::of(info)),
    {
        nvml_try(status)?;
        BridgeChipHierarchy::try_from(info)
    }

    /// What to hand to NVML for [`Device::clock_info`]:
    /// `nvmlDeviceGetClockInfo` and its arguments, without the places that it
    /// writes to.
    pub fn clock_info_call(&self, clock_type: Clock) -> (call: NativeCall)
        ensures
            call == (NativeCall::DeviceGetClockInfo {
                device: self@,
                clock_type: clock_type.native(),
            }),
    {
        NativeCall::DeviceGetClockInfo { device: self.device, clock_type: clock_type.into_c() }
    }

    /// The current speed (in MHz) of the given clock.
    ///
    /// Reads what `nvmlDeviceGetClockInfo` returned. A status other than
    /// success is the error, and nothing that the call wrote is looked at. On
    /// success the number that it wrote is the result.
    pub fn clock_info(&self, status: u32, clock: u32) -> (result: Result<u32, Error>)
        ensures
            result == after(status, Ok(clock)),
    {
        nvml_try(status)?;
        Ok(clock)
    }

    /// What to hand to NVML for [`Device::running_compute_processes`]:
    /// `nvmlDeviceGetComputeRunningProcesses` and its arguments, without the
    /// places that it writes to. NVML takes an unsigned int there: `size` goes
    /// cut to its low 32 bits.
    pub fn running_compute_processes_call(&self, size: usize) -> (call: NativeCall)
        ensures
            call == (NativeCall::DeviceGetComputeRunningProcesses {
                device: self@,
                capacity: size as u32,
            }),
    {
        NativeCall::DeviceGetComputeRunningProcesses {
            device: self.device,
            capacity: #[verifier::truncate] (size as u32),
        }
    }

    /// The processes with a compute context on this device, with room offered
    /// for `size` of them.
    ///
    /// Reads what `nvmlDeviceGetComputeRunningProcesses` returned. A status
    /// other than success is the error, and nothing that the call wrote is
    /// looked at. On success the result holds the entries that the call
    /// counted, in their order, and none after them, whatever room was
    /// offered.
    pub fn running_compute_processes(
        &self,
        status: u32,
        count: u32,
        infos: &[NativeProcessInfo],
    ) -> (result: Result<Vec<ProcessInfo>, Error>)
        ensures
            view_result(result) == after(status, Ok(processes_of(count, infos@))),
    {
        nvml_try(status)?;
        Ok(processes_from(count, infos))
    }

    /// What to hand to NVML for [`Device::cpu_affinity`]:
    /// `nvmlDeviceGetCpuAffinity` and its arguments, without the places that
    /// it writes to. NVML takes an unsigned int there: `size` goes cut to its
    /// low 32 bits.
    pub fn cpu_affinity_call(&self, size: usize) -> (call: NativeCall)
        ensures
            call == (NativeCall::DeviceGetCpuAffinity { device: self@, cpu_set_size: size as u32 }),
    {
        NativeCall::DeviceGetCpuAffinity {
            device: self.device,
            cpu_set_size: #[verifier::truncate] (size as u32),
        }
    }

    /// The ideal CPU affinity of this device, as `size` bitmasks of 64
    /// processors each.
    ///
    /// Reads what `nvmlDeviceGetCpuAffinity` returned. A status other than
    /// success is the error, and nothing that the call wrote is looked at. On
    /// success the result is the array that it filled.
    pub fn cpu_affinity(&self, status: u32, cpu_set: &[u64]) -> (result: Result<Vec<u64>, Error>)
        ensures
            view_result(result) == after(status, Ok(cpu_set@)),
    {
        nvml_try(status)?;
        Ok(slice_to_vec(cpu_set))
    }

    /// What to hand to NVML for [`Device::current_pcie_link_gen`]:
    /// `nvmlDeviceGetCurrPcieLinkGeneration` and its arguments, without the
    /// places that it writes to.
    pub fn current_pcie_link_gen_call(&self) -> (call: NativeCall)
        ensures
            call == (NativeCall::DeviceGetCurrPcieLinkGeneration { device: self@ }),
    {
        NativeCall::DeviceGetCurrPcieLinkGeneration { device: self.device }
    }

    /// The current PCIe link generation.
    ///
    /// Reads what `nvmlDeviceGetCurrPcieLinkGeneration` returned. A status
    /// other than success is the error, and nothing that the call wrote is
    /// looked at. On success the number that it wrote is the result.
    pub fn current_pcie_link_gen(&self, status: u32, link_gen: u32) -> (result: Result<u32, Error>)
        ensures
            result == after(status, Ok(link_gen)),
    {
        nvml_try(status)?;
        Ok(link_gen)
    }

    /// What to hand to NVML for [`Device::current_pcie_link_width`]:
    /// `nvmlDeviceGetCurrPcieLinkWidth` and its arguments, without the places
    /// that it writes to.
    pub fn current_pcie_link_width_call(&self) -> (call: NativeCall)
        ensures
            call == (NativeCall::DeviceGetCurrPcieLinkWidth { device: self@ }),
    {
        NativeCall::DeviceGetCurrPcieLinkWidth { device: self.device }
    }

    /// The current PCIe link width.
    ///
    /// Reads what `nvmlDeviceGetCurrPcieLinkWidth` returned. A status other
    /// than success is the error, and nothing that the call wrote is looked
    /// at. On success the number that it wrote is the result.
    pub fn current_pcie_link_width(
        &self,
        status: u32,
        link_width: u32,
    ) -> (result: Result<u32, Error>)
        ensures
            result == after(status, Ok(link_width)),
    {
        nvml_try(status)?;
        Ok(link_width)
    }

    /// What to hand to NVML for [`Device::decoder_utilization`]:
    /// `nvmlDeviceGetDecoderUtilization` and its arguments, without the places
    /// that it writes to.
    pub fn decoder_utilization_call(&self) -> (call: NativeCall)
        ensures
            call == (NativeCall::DeviceGetDecoderUtilization { device: self@ }),
    {
        NativeCall::DeviceGetDecoderUtilization { device: self.device }
    }

    /// The current utilization of the decoder, and the sampling period (in
    /// microseconds).
    ///
    /// Reads what `nvmlDeviceGetDecoderUtilization` returned. A status other
    /// than success is the error, and nothing that the call wrote is looked
    /// at. On success the two numbers that it wrote are the result.
    pub fn decoder_utilization(
        &self,
        status: u32,
        utilization: u32,
        sampling_period: u32,
    ) -> (result: Result<DecoderUtilizationInfo, Error>)
        ensures
            result == after(status, Ok(DecoderUtilizationInfo { utilization, sampling_period })),
    {
        nvml_try(status)?;
        Ok(DecoderUtilizationInfo { utilization, sampling_period })
    }

    /// What to hand to NVML for [`Device::default_applications_clock`]:
    /// `nvmlDeviceGetDefaultApplicationsClock` and its arguments, without the
    /// places that it writes to.
    pub fn default_applications_clock_call(&self, clock_type: Clock) -> (call: NativeCall)
        ensures
            call == (NativeCall::DeviceGetDefaultApplicationsClock {
                device: self@,
                clock_type: clock_type.native(),
            }),
    {
        NativeCall::DeviceGetDefaultApplicationsClock {
            device: self.device,
            clock_type: clock_type.into_c(),
        }
    }

    /// The applications clock (in MHz) that this device boots with, and goes
    /// back to when the clocks are reset.
    ///
    /// Reads what `nvmlDeviceGetDefaultApplicationsClock` returned. A status
    /// other than success is the error, and nothing that the call wrote is
    /// looked at. On success the number that it wrote is the result.
    pub fn default_applications_clock(
        &self,
        status: u32,
        clock: u32,
    ) -> (result: Result<u32, Error>)
        ensures
            result == after(status, Ok(clock)),
    {
        nvml_try(status)?;
        Ok(clock)
    }

    /// What to hand to NVML for [`Device::detailed_ecc_errors`]:
    /// `nvmlDeviceGetDetailedEccErrors` and its arguments, without the places
    /// that it writes to.
    pub fn detailed_ecc_errors_call(
        &self,
        error_type: MemoryError,
        counter_type: EccCounter,
    ) -> (call: NativeCall)
        ensures
            call == (NativeCall::DeviceGetDetailedEccErrors {
                device: self@,
                error_type: error_type.native(),
                counter_type: counter_type.native(),
            }),
    {
        NativeCall::DeviceGetDetailedEccErrors {
            device: self.device,
            error_type: error_type.into_c(),
            counter_type: counter_type.into_c(),
        }
    }

    /// The ECC error counts by memory location. NVML has deprecated this query
    /// in favour of the memory error counter.
    ///
    /// Reads what `nvmlDeviceGetDetailedEccErrors` returned. A status other
    /// than success is the error, and nothing that the call wrote is looked
    /// at. On success the result is built from the struct that it filled in.
    pub fn detailed_ecc_errors(
        &self,
        status: u32,
        counts: NativeEccErrorCounts,
    ) -> (result: Result<EccErrorCounts, Error>)
        ensures
            result == after(status, Ok(EccErrorCounts::of(counts))),
    {
        nvml_try(status)?;
        Ok(EccErrorCounts::from(counts))
    }

    /// What to hand to NVML for [`Device::is_display_active`]:
    /// `nvmlDeviceGetDisplayActive` and its arguments, without the places that
    /// it writes to.
    pub fn is_display_active_call(&self) -> (call: NativeCall)
        ensures
            call == (NativeCall::DeviceGetDisplayActive { device: self@ }),
    {
        NativeCall::DeviceGetDisplayActive { device: self.device }
    }

    /// Whether a display is initialized on this device, be a monitor attached
    /// or not.
    ///
    /// Reads what `nvmlDeviceGetDisplayActive` returned. A status other than
    /// success is the error, and nothing that the call wrote is looked at. On
    /// success the integer that it wrote has to be one of the two enable
    /// states; `UnrecognizedEnumVariant` where it is not.
    pub fn is_display_active(&self, status: u32, state: u32) -> (result: Result<bool, Error>)
        ensures
            result == after(status, enabled_of(state)),
    {
        nvml_try(status)?;
        enabled_from(state)
    }

    /// What to hand to NVML for [`Device::is_display_connected`]:
    /// `nvmlDeviceGetDisplayMode` and its arguments, without the places that
    /// it writes to.
    pub fn is_display_connected_call(&self) -> (call: NativeCall)
        ensures
            call == (NativeCall::DeviceGetDisplayMode { device: self@ }),
    {
        NativeCall::DeviceGetDisplayMode { device: self.device }
    }

    /// Whether a physical display is connected to one of the connectors of
    /// this device.
    ///
    /// Reads what `nvmlDeviceGetDisplayMode` returned. A status other than
    /// success is the error, and nothing that the call wrote is looked at. On
    /// success the integer that it wrote has to be one of the two enable
    /// states; `UnrecognizedEnumVariant` where it is not.
    pub fn is_display_connected(&self, status: u32, state: u32) -> (result: Result<bool, Error>)
        ensures
            result == after(status, enabled_of(state)),
    {
        nvml_try(status)?;
        enabled_from(state)
    }

    /// What to hand to NVML for [`Device::driver_model`]:
    /// `nvmlDeviceGetDriverModel` and its arguments, without the places that
    /// it writes to.
    pub fn driver_model_call(&self) -> (call: NativeCall)
        ensures
            call == (NativeCall::DeviceGetDriverModel { device: self@ }),
    {
        NativeCall::DeviceGetDriverModel { device: self.device }
    }

    /// The current driver model and the pending one. NVML offers this on
    /// Windows only.
    ///
    /// Reads what `nvmlDeviceGetDriverModel` returned. A status other than
    /// success is the error, and nothing that the call wrote is looked at. On
    /// success each of the two integers that it wrote has to be one that is
    /// known; `UnrecognizedEnumVariant` where one is not.
    pub fn driver_model(
        &self,
        status: u32,
        current: u32,
        pending: u32,
    ) -> (result: Result<DriverModels, Error>)
        ensures
            result == after(status, DriverModels::of(current, pending)),
    {
        nvml_try(status)?;
        DriverModels::try_from(current, pending)
    }

    /// What to hand to NVML for [`Device::is_ecc_enabled`]:
    /// `nvmlDeviceGetEccMode` and its arguments, without the places that it
    /// writes to.
    pub fn is_ecc_enabled_call(&self) -> (call: NativeCall)
        ensures
            call == (NativeCall::DeviceGetEccMode { device: self@ }),
    {
        NativeCall::DeviceGetEccMode { device: self.device }
    }

    /// The current ECC mode and the pending one.
    ///
    /// Reads what `nvmlDeviceGetEccMode` returned. A status other than success
    /// is the error, and nothing that the call wrote is looked at. On success
    /// each of the two integers that it wrote has to be one that is known;
    /// `UnrecognizedEnumVariant` where one is not.
    pub fn is_ecc_enabled(
        &self,
        status: u32,
        current: u32,
        pending: u32,
    ) -> (result: Result<EccModeInfo, Error>)
        ensures
            result == after(status, EccModeInfo::of(current, pending)),
    {
        nvml_try(status)?;
        EccModeInfo::try_from(current, pending)
    }

    /// What to hand to NVML for [`Device::encoder_utilization`]:
    /// `nvmlDeviceGetEncoderUtilization` and its arguments, without the places
    /// that it writes to.
    pub fn encoder_utilization_call(&self) -> (call: NativeCall)
        ensures
            call == (NativeCall::DeviceGetEncoderUtilization { device: self@ }),
    {
        NativeCall::DeviceGetEncoderUtilization { device: self.device }
    }

    /// The current utilization of the encoder, and the sampling period (in
    /// microseconds).
    ///
    /// Reads what `nvmlDeviceGetEncoderUtilization` returned. A status other
    /// than success is the error, and nothing that the call wrote is looked
    /// at. On success the two numbers that it wrote are the result.
    pub fn encoder_utilization(
        &self,
        status: u32,
        utilization: u32,
        sampling_period: u32,
    ) -> (result: Result<EncoderUtilizationInfo, Error>)
        ensures
            result == after(status, Ok(EncoderUtilizationInfo { utilization, sampling_period })),
    {
        nvml_try(status)?;
        Ok(EncoderUtilizationInfo { utilization, sampling_period })
    }

    /// What to hand to NVML for [`Device::enforced_power_limit`]:
    /// `nvmlDeviceGetEnforcedPowerLimit` and its arguments, without the places
    /// that it writes to.
    pub fn enforced_power_limit_call(&self) -> (call: NativeCall)
        ensures
            call == (NativeCall::DeviceGetEnforcedPowerLimit { device: self@ }),
    {
        NativeCall::DeviceGetEnforcedPowerLimit { device: self.device }
    }

    /// The power limit (in milliwatts) that the driver enforces after taking
    /// all limiters into account.
    ///
    /// Reads what `nvmlDeviceGetEnforcedPowerLimit` returned. A status other
    /// than success is the error, and nothing that the call wrote is looked
    /// at. On success the number that it wrote is the result.
    pub fn enforced_power_limit(&self, status: u32, limit: u32) -> (result: Result<u32, Error>)
        ensures
            result == after(status, Ok(limit)),
    {
        nvml_try(status)?;
        Ok(limit)
    }

    /// What to hand to NVML for [`Device::fan_speed`]: `nvmlDeviceGetFanSpeed`
    /// and its arguments, without the places that it writes to.
    pub fn fan_speed_call(&self) -> (call: NativeCall)
        ensures
            call == (NativeCall::DeviceGetFanSpeed { device: self@ }),
    {
        NativeCall::DeviceGetFanSpeed { device: self.device }
    }

    /// The intended speed of the fan of this device, in percent of its
    /// maximum.
    ///
    /// Reads what `nvmlDeviceGetFanSpeed` returned. A status other than
    /// success is the error, and nothing that the call wrote is looked at. On
    /// success the number that it wrote is the result.
    pub fn fan_speed(&self, status: u32, speed: u32) -> (result: Result<u32, Error>)
        ensures
            result == after(status, Ok(speed)),
    {
        nvml_try(status)?;
        Ok(speed)
    }

    /// What to hand to NVML for [`Device::gpu_operation_mode`]:
    /// `nvmlDeviceGetGpuOperationMode` and its arguments, without the places
    /// that it writes to.
    pub fn gpu_operation_mode_call(&self) -> (call: NativeCall)
        ensures
            call == (NativeCall::DeviceGetGpuOperationMode { device: self@ }),
    {
        NativeCall::DeviceGetGpuOperationMode { device: self.device }
    }

    /// The current GPU operation mode and the pending one.
    ///
    /// Reads what `nvmlDeviceGetGpuOperationMode` returned. A status other
    /// than success is the error, and nothing that the call wrote is looked
    /// at. On success each of the two integers that it wrote has to be one
    /// that is known; `UnrecognizedEnumVariant` where one is not.
    pub fn gpu_operation_mode(
        &self,
        status: u32,
        current: u32,
        pending: u32,
    ) -> (result: Result<OperationModeInfo, Error>)
        ensures
            result == after(status, OperationModeInfo::of(current, pending)),
    {
        nvml_try(status)?;
        OperationModeInfo::try_from(current, pending)
    }

    /// What to hand to NVML for [`Device::running_graphics_processes`]:
    /// `nvmlDeviceGetGraphicsRunningProcesses` and its arguments, without the
    /// places that it writes to. NVML takes an unsigned int there: `size` goes
    /// cut to its low 32 bits.
    pub fn running_graphics_processes_call(&self, size: usize) -> (call: NativeCall)
        ensures
            call == (NativeCall::DeviceGetGraphicsRunningProcesses {
                device: self@,
                capacity: size as u32,
            }),
    {
        NativeCall::DeviceGetGraphicsRunningProcesses {
            device: self.device,
            capacity: #[verifier::truncate] (size as u32),
        }
    }

    /// The processes with a graphics context on this device, with room offered
    /// for `size` of them.
    ///
    /// Reads what `nvmlDeviceGetGraphicsRunningProcesses` returned. A status
    /// other than success is the error, and nothing that the call wrote is
    /// looked at. On success the result holds the entries that the call
    /// counted, in their order, and none after them, whatever room was
    /// offered.
    pub fn running_graphics_processes(
        &self,
        status: u32,
        count: u32,
        infos: &[NativeProcessInfo],
    ) -> (result: Result<Vec<ProcessInfo>, Error>)
        ensures
            view_result(result) == after(status, Ok(processes_of(count, infos@))),
    {
        nvml_try(status)?;
        Ok(processes_from(count, infos))
    }

    /// What to hand to NVML for [`Device::index`]: `nvmlDeviceGetIndex` and
    /// its arguments, without the places that it writes to.
    pub fn index_call(&self) -> (call: NativeCall)
        ensures
            call == (NativeCall::DeviceGetIndex { device: self@ }),
    {
        NativeCall::DeviceGetIndex { device: self.device }
    }

    /// The index of this device within NVML.
    ///
    /// Reads what `nvmlDeviceGetIndex` returned. A status other than success
    /// is the error, and nothing that the call wrote is looked at. On success
    /// the number that it wrote is the result.
    pub fn index(&self, status: u32, index: u32) -> (result: Result<u32, Error>)
        ensures
            result == after(status, Ok(index)),
    {
        nvml_try(status)?;
        Ok(index)
    }

    /// What to hand to NVML for [`Device::config_checksum`]:
    /// `nvmlDeviceGetInforomConfigurationChecksum` and its arguments, without
    /// the places that it writes to.
    pub fn config_checksum_call(&self) -> (call: NativeCall)
        ensures
            call == (NativeCall::DeviceGetInforomConfigurationChecksum { device: self@ }),
    {
        NativeCall::DeviceGetInforomConfigurationChecksum { device: self.device }
    }

    /// The checksum of the configuration stored in the infoROM of this device.
    ///
    /// Reads what `nvmlDeviceGetInforomConfigurationChecksum` returned. A
    /// status other than success is the error, and nothing that the call wrote
    /// is looked at. On success the number that it wrote is the result.
    pub fn config_checksum(&self, status: u32, checksum: u32) -> (result: Result<u32, Error>)
        ensures
            result == after(status, Ok(checksum)),
    {
        nvml_try(status)?;
        Ok(checksum)
    }

    /// What to hand to NVML for [`Device::info_rom_image_version`]:
    /// `nvmlDeviceGetInforomImageVersion` and its arguments, without the
    /// places that it writes to.
    pub fn info_rom_image_version_call(&self) -> (call: NativeCall)
        ensures
            call == (NativeCall::DeviceGetInforomImageVersion {
                device: self@,
                length: native::NVML_DEVICE_INFOROM_VERSION_BUFFER_SIZE,
            }),
    {
        NativeCall::DeviceGetInforomImageVersion {
            device: self.device,
            length: native::NVML_DEVICE_INFOROM_VERSION_BUFFER_SIZE,
        }
    }

    /// The version of the infoROM image as a whole.
    ///
    /// Reads what `nvmlDeviceGetInforomImageVersion` returned. A status other
    /// than success is the error, and nothing that the call wrote is looked
    /// at. On success the text is what stands in the buffer before the first
    /// zero byte; `Utf8DecodeError` where that is not valid UTF-8.
    pub fn info_rom_image_version(
        &self,
        status: u32,
        buffer: &[u8],
    ) -> (result: Result<String, Error>)
        ensures
            view_result(result) == after(status, text_of(buffer@)),
    {
        nvml_try(status)?;
        decode_text(buffer)
    }

    /// What to hand to NVML for [`Device::info_rom_version`]:
    /// `nvmlDeviceGetInforomVersion` and its arguments, without the places
    /// that it writes to.
    pub fn info_rom_version_call(&self, object: InfoROM) -> (call: NativeCall)
        ensures
            call == (NativeCall::DeviceGetInforomVersion {
                device: self@,
                object: object.native(),
                length: native::NVML_DEVICE_INFOROM_VERSION_BUFFER_SIZE,
            }),
    {
        NativeCall::DeviceGetInforomVersion {
            device: self.device,
            object: object.into_c(),
            length: native::NVML_DEVICE_INFOROM_VERSION_BUFFER_SIZE,
        }
    }

    /// The version of the given object of the infoROM.
    ///
    /// Reads what `nvmlDeviceGetInforomVersion` returned. A status other than
    /// success is the error, and nothing that the call wrote is looked at. On
    /// success the text is what stands in the buffer before the first zero
    /// byte; `Utf8DecodeError` where that is not valid UTF-8.
    pub fn info_rom_version(&self, status: u32, buffer: &[u8]) -> (result: Result<String, Error>)
        ensures
            view_result(result) == after(status, text_of(buffer@)),
    {
        nvml_try(status)?;
        decode_text(buffer)
    }

    /// What to hand to NVML for [`Device::max_clock_info`]:
    /// `nvmlDeviceGetMaxClockInfo` and its arguments, without the places that
    /// it writes to.
    pub fn max_clock_info_call(&self, clock_type: Clock) -> (call: NativeCall)
        ensures
            call == (NativeCall::DeviceGetMaxClockInfo {
                device: self@,
                clock_type: clock_type.native(),
            }),
    {
        NativeCall::DeviceGetMaxClockInfo { device: self.device, clock_type: clock_type.into_c() }
    }

    /// The highest speed (in MHz) of the given clock.
    ///
    /// Reads what `nvmlDeviceGetMaxClockInfo` returned. A status other than
    /// success is the error, and nothing that the call wrote is looked at. On
    /// success the number that it wrote is the result.
    pub fn max_clock_info(&self, status: u32, clock: u32) -> (result: Result<u32, Error>)
        ensures
            result == after(status, Ok(clock)),
    {
        nvml_try(status)?;
        Ok(clock)
    }

    /// What to hand to NVML for [`Device::max_pcie_link_gen`]:
    /// `nvmlDeviceGetMaxPcieLinkGeneration` and its arguments, without the
    /// places that it writes to.
    pub fn max_pcie_link_gen_call(&self) -> (call: NativeCall)
        ensures
            call == (NativeCall::DeviceGetMaxPcieLinkGeneration { device: self@ }),
    {
        NativeCall::DeviceGetMaxPcieLinkGeneration { device: self.device }
    }

    /// The highest PCIe link generation possible with this device and system.
    ///
    /// Reads what `nvmlDeviceGetMaxPcieLinkGeneration` returned. A status
    /// other than success is the error, and nothing that the call wrote is
    /// looked at. On success the number that it wrote is the result.
    pub fn max_pcie_link_gen(&self, status: u32, max_gen: u32) -> (result: Result<u32, Error>)
        ensures
            result == after(status, Ok(max_gen)),
    {
        nvml_try(status)?;
        Ok(max_gen)
    }

    /// What to hand to NVML for [`Device::max_pcie_link_width`]:
    /// `nvmlDeviceGetMaxPcieLinkWidth` and its arguments, without the places
    /// that it writes to.
    pub fn max_pcie_link_width_call(&self) -> (call: NativeCall)
        ensures
            call == (NativeCall::DeviceGetMaxPcieLinkWidth { device: self@ }),
    {
        NativeCall::DeviceGetMaxPcieLinkWidth { device: self.device }
    }

    /// The largest PCIe link width possible with this device and system.
    ///
    /// Reads what `nvmlDeviceGetMaxPcieLinkWidth` returned. A status other
    /// than success is the error, and nothing that the call wrote is looked
    /// at. On success the number that it wrote is the result.
    pub fn max_pcie_link_width(&self, status: u32, max_width: u32) -> (result: Result<u32, Error>)
        ensures
            result == after(status, Ok(max_width)),
    {
        nvml_try(status)?;
        Ok(max_width)
    }

    /// What to hand to NVML for [`Device::memory_error_counter`]:
    /// `nvmlDeviceGetMemoryErrorCounter` and its arguments, without the places
    /// that it writes to.
    pub fn memory_error_counter_call(
        &self,
        error_type: MemoryError,
        counter_type: EccCounter,
        location: MemoryLocation,
    ) -> (call: NativeCall)
        ensures
            call == (NativeCall::DeviceGetMemoryErrorCounter {
                device: self@,
                error_type: error_type.native(),
                counter_type: counter_type.native(),
                location: location.native(),
            }),
    {
        NativeCall::DeviceGetMemoryErrorCounter {
            device: self.device,
            error_type: error_type.into_c(),
            counter_type: counter_type.into_c(),
            location: location.into_c(),
        }
    }

    /// The memory error counter for the given kind of error, kind of counter
    /// and memory location.
    ///
    /// Reads what `nvmlDeviceGetMemoryErrorCounter` returned. A status other
    /// than success is the error, and nothing that the call wrote is looked
    /// at. On success the number that it wrote is the result.
    pub fn memory_error_counter(&self, status: u32, count: u64) -> (result: Result<u64, Error>)
        ensures
            result == after(status, Ok(count)),
    {
        nvml_try(status)?;
        Ok(count)
    }

    /// What to hand to NVML for [`Device::memory_info`]:
    /// `nvmlDeviceGetMemoryInfo` and its arguments, without the places that it
    /// writes to.
    pub fn memory_info_call(&self) -> (call: NativeCall)
        ensures
            call == (NativeCall::DeviceGetMemoryInfo { device: self@ }),
    {
        NativeCall::DeviceGetMemoryInfo { device: self.device }
    }

    /// The used, free and total memory of this device, in bytes.
    ///
    /// Reads what `nvmlDeviceGetMemoryInfo` returned. A status other than
    /// success is the error, and nothing that the call wrote is looked at. On
    /// success the result is built from the struct that it filled in.
    pub fn memory_info(
        &self,
        status: u32,
        info: NativeMemory,
    ) -> (result: Result<MemoryInfo, Error>)
        ensures
            result == after(status, Ok(MemoryInfo::of(info))),
    {
        nvml_try(status)?;
        Ok(MemoryInfo::from(info))
    }

    /// What to hand to NVML for [`Device::minor_number`]:
    /// `nvmlDeviceGetMinorNumber` and its arguments, without the places that
    /// it writes to.
    pub fn minor_number_call(&self) -> (call: NativeCall)
        ensures
            call == (NativeCall::DeviceGetMinorNumber { device: self@ }),
    {
        NativeCall::DeviceGetMinorNumber { device: self.device }
    }

    /// The minor number of this device: the number in the name of its device
    /// node. NVML offers this on Linux only.
    ///
    /// Reads what `nvmlDeviceGetMinorNumber` returned. A status other than
    /// success is the error, and nothing that the call wrote is looked at. On
    /// success the number that it wrote is the result.
    pub fn minor_number(&self, status: u32, number: u32) -> (result: Result<u32, Error>)
        ensures
            result == after(status, Ok(number)),
    {
        nvml_try(status)?;
        Ok(number)
    }

    /// What to hand to NVML for [`Device::is_multi_gpu_board`]:
    /// `nvmlDeviceGetMultiGpuBoard` and its arguments, without the places that
    /// it writes to.
    pub fn is_multi_gpu_board_call(&self) -> (call: NativeCall)
        ensures
            call == (NativeCall::DeviceGetMultiGpuBoard { device: self@ }),
    {
        NativeCall::DeviceGetMultiGpuBoard { device: self.device }
    }

    /// Whether this device is on a board with several GPUs.
    ///
    /// Reads what `nvmlDeviceGetMultiGpuBoard` returned. A status other than
    /// success is the error, and nothing that the call wrote is looked at. On
    /// success the integer that it wrote is read as `false` where it is 0 and
    /// as `true` anywhere else.
    pub fn is_multi_gpu_board(&self, status: u32, int_bool: u32) -> (result: Result<bool, Error>)
        ensures
            result == after(status, Ok(int_bool != 0)),
    {
        nvml_try(status)?;
        Ok(int_bool != 0)
    }

    /// What to hand to NVML for [`Device::name`]: `nvmlDeviceGetName` and its
    /// arguments, without the places that it writes to.
    pub fn name_call(&self) -> (call: NativeCall)
        ensures
            call == (NativeCall::DeviceGetName {
                device: self@,
                length: native::NVML_DEVICE_NAME_BUFFER_SIZE,
            }),
    {
        NativeCall::DeviceGetName {
            device: self.device,
            length: native::NVML_DEVICE_NAME_BUFFER_SIZE,
        }
    }

    /// The name of this device, such as "Tesla C2070".
    ///
    /// Reads what `nvmlDeviceGetName` returned. A status other than success is
    /// the error, and nothing that the call wrote is looked at. On success the
    /// text is what stands in the buffer before the first zero byte;
    /// `Utf8DecodeError` where that is not valid UTF-8.
    pub fn name(&self, status: u32, buffer: &[u8]) -> (result: Result<String, Error>)
        ensures
            view_result(result) == after(status, text_of(buffer@)),
    {
        nvml_try(status)?;
        decode_text(buffer)
    }

    /// What to hand to NVML for [`Device::pci_info`]:
    /// `nvmlDeviceGetPciInfo_v2` and its arguments, without the places that it
    /// writes to.
    pub fn pci_info_call(&self) -> (call: NativeCall)
        ensures
            call == (NativeCall::DeviceGetPciInfo { device: self@ }),
    {
        NativeCall::DeviceGetPciInfo { device: self.device }
    }

    /// The PCI attributes of this device.
    ///
    /// Reads what `nvmlDeviceGetPciInfo_v2` returned. A status other than
    /// success is the error, and nothing that the call wrote is looked at. On
    /// success the result is built from the struct that it filled in, if that
    /// can be read.
    pub fn pci_info(&self, status: u32, pci_info: NativePciInfo) -> (result: Result<PciInfo, Error>)
        ensures
            view_result(result) == after(status, PciInfo::of(pci_info)),
    {
        nvml_try(status)?;
        PciInfo::try_from(pci_info)
    }

    /// What to hand to NVML for [`Device::pcie_replay_counter`]:
    /// `nvmlDeviceGetPcieReplayCounter` and its arguments, without the places
    /// that it writes to.
    pub fn pcie_replay_counter_call(&self) -> (call: NativeCall)
        ensures
            call == (NativeCall::DeviceGetPcieReplayCounter { device: self@ }),
    {
        NativeCall::DeviceGetPcieReplayCounter { device: self.device }
    }

    /// The PCIe replay counter.
    ///
    /// Reads what `nvmlDeviceGetPcieReplayCounter` returned. A status other
    /// than success is the error, and nothing that the call wrote is looked
    /// at. On success the number that it wrote is the result.
    pub fn pcie_replay_counter(&self, status: u32, value: u32) -> (result: Result<u32, Error>)
        ensures
            result == after(status, Ok(value)),
    {
        nvml_try(status)?;
        Ok(value)
    }

    /// What to hand to NVML for [`Device::pcie_throughput`]:
    /// `nvmlDeviceGetPcieThroughput` and its arguments, without the places
    /// that it writes to.
    pub fn pcie_throughput_call(&self, counter: PcieUtilCounter) -> (call: NativeCall)
        ensures
            call == (NativeCall::DeviceGetPcieThroughput {
                device: self@,
                counter: counter.native(),
            }),
    {
        NativeCall::DeviceGetPcieThroughput { device: self.device, counter: counter.into_c() }
    }

    /// The PCIe throughput (in KB/s) that the given counter measured over the
    /// last 20ms.
    ///
    /// Reads what `nvmlDeviceGetPcieThroughput` returned. A status other than
    /// success is the error, and nothing that the call wrote is looked at. On
    /// success the number that it wrote is the result.
    pub fn pcie_throughput(&self, status: u32, throughput: u32) -> (result: Result<u32, Error>)
        ensures
            result == after(status, Ok(throughput)),
    {
        nvml_try(status)?;
        Ok(throughput)
    }

    /// What to hand to NVML for [`Device::performance_state`]:
    /// `nvmlDeviceGetPerformanceState` and its arguments, without the places
    /// that it writes to.
    pub fn performance_state_call(&self) -> (call: NativeCall)
        ensures
            call == (NativeCall::DeviceGetPerformanceState { device: self@ }),
    {
        NativeCall::DeviceGetPerformanceState { device: self.device }
    }

    /// The current performance state of this device.
    ///
    /// Reads what `nvmlDeviceGetPerformanceState` returned. A status other
    /// than success is the error, and nothing that the call wrote is looked
    /// at. On success the integer that it wrote has to be one that is known;
    /// `UnrecognizedEnumVariant` where it is not.
    pub fn performance_state(
        &self,
        status: u32,
        state: u32,
    ) -> (result: Result<PerformanceState, Error>)
        ensures
            result == after(status, recognized(PerformanceState::from_native(state))),
    {
        nvml_try(status)?;
        PerformanceState::try_from(state)
    }

    /// What to hand to NVML for [`Device::is_in_persistent_mode`]:
    /// `nvmlDeviceGetPersistenceMode` and its arguments, without the places
    /// that it writes to.
    pub fn is_in_persistent_mode_call(&self) -> (call: NativeCall)
        ensures
            call == (NativeCall::DeviceGetPersistenceMode { device: self@ }),
    {
        NativeCall::DeviceGetPersistenceMode { device: self.device }
    }

    /// Whether persistence mode is enabled for this device. NVML offers this
    /// on Linux only.
    ///
    /// Reads what `nvmlDeviceGetPersistenceMode` returned. A status other than
    /// success is the error, and nothing that the call wrote is looked at. On
    /// success the integer that it wrote has to be one of the two enable
    /// states; `UnrecognizedEnumVariant` where it is not.
    pub fn is_in_persistent_mode(&self, status: u32, state: u32) -> (result: Result<bool, Error>)
        ensures
            result == after(status, enabled_of(state)),
    {
        nvml_try(status)?;
        enabled_from(state)
    }

    /// What to hand to NVML for [`Device::power_management_limit_default`]:
    /// `nvmlDeviceGetPowerManagementDefaultLimit` and its arguments, without
    /// the places that it writes to.
    pub fn power_management_limit_default_call(&self) -> (call: NativeCall)
        ensures
            call == (NativeCall::DeviceGetPowerManagementDefaultLimit { device: self@ }),
    {
        NativeCall::DeviceGetPowerManagementDefaultLimit { device: self.device }
    }

    /// The default power management limit of this device, in milliwatts.
    ///
    /// Reads what `nvmlDeviceGetPowerManagementDefaultLimit` returned. A
    /// status other than success is the error, and nothing that the call wrote
    /// is looked at. On success the number that it wrote is the result.
    pub fn power_management_limit_default(
        &self,
        status: u32,
        limit: u32,
    ) -> (result: Result<u32, Error>)
        ensures
            result == after(status, Ok(limit)),
    {
        nvml_try(status)?;
        Ok(limit)
    }

    /// What to hand to NVML for [`Device::power_management_limit`]:
    /// `nvmlDeviceGetPowerManagementLimit` and its arguments, without the
    /// places that it writes to.
    pub fn power_management_limit_call(&self) -> (call: NativeCall)
        ensures
            call == (NativeCall::DeviceGetPowerManagementLimit { device: self@ }),
    {
        NativeCall::DeviceGetPowerManagementLimit { device: self.device }
    }

    /// The power management limit of this device, in milliwatts.
    ///
    /// Reads what `nvmlDeviceGetPowerManagementLimit` returned. A status other
    /// than success is the error, and nothing that the call wrote is looked
    /// at. On success the number that it wrote is the result.
    pub fn power_management_limit(&self, status: u32, limit: u32) -> (result: Result<u32, Error>)
        ensures
            result == after(status, Ok(limit)),
    {
        nvml_try(status)?;
        Ok(limit)
    }

    /// What to hand to NVML for
    /// [`Device::power_management_limit_constraints`]:
    /// `nvmlDeviceGetPowerManagementLimitConstraints` and its arguments,
    /// without the places that it writes to.
    pub fn power_management_limit_constraints_call(&self) -> (call: NativeCall)
        ensures
            call == (NativeCall::DeviceGetPowerManagementLimitConstraints { device: self@ }),
    {
        NativeCall::DeviceGetPowerManagementLimitConstraints { device: self.device }
    }

    /// The smallest and the largest power management limit that can be set, in
    /// milliwatts.
    ///
    /// Reads what `nvmlDeviceGetPowerManagementLimitConstraints` returned. A
    /// status other than success is the error, and nothing that the call wrote
    /// is looked at. On success the two numbers that it wrote are the result.
    pub fn power_management_limit_constraints(
        &self,
        status: u32,
        min_limit: u32,
        max_limit: u32,
    ) -> (result: Result<PowerManagementConstraints, Error>)
        ensures
            result == after(status, Ok(PowerManagementConstraints { min_limit, max_limit })),
    {
        nvml_try(status)?;
        Ok(PowerManagementConstraints { min_limit, max_limit })
    }

    /// What to hand to NVML for [`Device::is_power_management_algo_active`]:
    /// `nvmlDeviceGetPowerManagementMode` and its arguments, without the
    /// places that it writes to.
    pub fn is_power_management_algo_active_call(&self) -> (call: NativeCall)
        ensures
            call == (NativeCall::DeviceGetPowerManagementMode { device: self@ }),
    {
        NativeCall::DeviceGetPowerManagementMode { device: self.device }
    }

    /// Whether the power management algorithm is active. NVML has deprecated
    /// this query.
    ///
    /// Reads what `nvmlDeviceGetPowerManagementMode` returned. A status other
    /// than success is the error, and nothing that the call wrote is looked
    /// at. On success the integer that it wrote has to be one of the two
    /// enable states; `UnrecognizedEnumVariant` where it is not.
    pub fn is_power_management_algo_active(
        &self,
        status: u32,
        state: u32,
    ) -> (result: Result<bool, Error>)
        ensures
            result == after(status, enabled_of(state)),
    {
        nvml_try(status)?;
        enabled_from(state)
    }

    /// What to hand to NVML for [`Device::power_state`]:
    /// `nvmlDeviceGetPowerState` and its arguments, without the places that it
    /// writes to.
    pub fn power_state_call(&self) -> (call: NativeCall)
        ensures
            call == (NativeCall::DeviceGetPowerState { device: self@ }),
    {
        NativeCall::DeviceGetPowerState { device: self.device }
    }

    /// The current performance state of this device. NVML has deprecated this
    /// query in favour of the performance state.
    ///
    /// Reads what `nvmlDeviceGetPowerState` returned. A status other than
    /// success is the error, and nothing that the call wrote is looked at. On
    /// success the integer that it wrote has to be one that is known;
    /// `UnrecognizedEnumVariant` where it is not.
    pub fn power_state(&self, status: u32, state: u32) -> (result: Result<PerformanceState, Error>)
        ensures
            result == after(status, recognized(PerformanceState::from_native(state))),
    {
        nvml_try(status)?;
        PerformanceState::try_from(state)
    }

    /// What to hand to NVML for [`Device::power_usage`]:
    /// `nvmlDeviceGetPowerUsage` and its arguments, without the places that it
    /// writes to.
    pub fn power_usage_call(&self) -> (call: NativeCall)
        ensures
            call == (NativeCall::DeviceGetPowerUsage { device: self@ }),
    {
        NativeCall::DeviceGetPowerUsage { device: self.device }
    }

    /// The power that this GPU and its circuitry draw, in milliwatts.
    ///
    /// Reads what `nvmlDeviceGetPowerUsage` returned. A status other than
    /// success is the error, and nothing that the call wrote is looked at. On
    /// success the number that it wrote is the result.
    pub fn power_usage(&self, status: u32, usage: u32) -> (result: Result<u32, Error>)
        ensures
            result == after(status, Ok(usage)),
    {
        nvml_try(status)?;
        Ok(usage)
    }

    /// What to hand to NVML for [`Device::retired_pages`]:
    /// `nvmlDeviceGetRetiredPages` and its arguments, without the places that
    /// it writes to. NVML takes an unsigned int there: `size` goes cut to its
    /// low 32 bits.
    pub fn retired_pages_call(&self, cause: RetirementCause, size: usize) -> (call: NativeCall)
        ensures
            call == (NativeCall::DeviceGetRetiredPages {
                device: self@,
                cause: cause.native(),
                capacity: size as u32,
            }),
    {
        NativeCall::DeviceGetRetiredPages {
            device: self.device,
            cause: cause.into_c(),
            capacity: #[verifier::truncate] (size as u32),
        }
    }

    /// The addresses of the pages that were retired for the given cause, those
    /// pending retirement included, with room offered for `size` of them.
    ///
    /// Reads what `nvmlDeviceGetRetiredPages` returned. A status other than
    /// success is the error, and nothing that the call wrote is looked at. On
    /// success the result holds the entries that the call counted, in their
    /// order, and none after them, whatever room was offered.
    pub fn retired_pages(
        &self,
        status: u32,
        page_count: u32,
        addresses: &[u64],
    ) -> (result: Result<Vec<u64>, Error>)
        ensures
            view_result(result) == after(status, Ok(filled(page_count, addresses@))),
    {
        nvml_try(status)?;
        Ok(take_filled(page_count, addresses))
    }

    /// What to hand to NVML for [`Device::are_pages_pending_retired`]:
    /// `nvmlDeviceGetRetiredPagesPendingStatus` and its arguments, without the
    /// places that it writes to.
    pub fn are_pages_pending_retired_call(&self) -> (call: NativeCall)
        ensures
            call == (NativeCall::DeviceGetRetiredPagesPendingStatus { device: self@ }),
    {
        NativeCall::DeviceGetRetiredPagesPendingStatus { device: self.device }
    }

    /// Whether pages are pending retirement (a reboot retires them fully).
    ///
    /// Reads what `nvmlDeviceGetRetiredPagesPendingStatus` returned. A status
    /// other than success is the error, and nothing that the call wrote is
    /// looked at. On success the integer that it wrote has to be one of the
    /// two enable states; `UnrecognizedEnumVariant` where it is not.
    pub fn are_pages_pending_retired(
        &self,
        status: u32,
        state: u32,
    ) -> (result: Result<bool, Error>)
        ensures
            result == after(status, enabled_of(state)),
    {
        nvml_try(status)?;
        enabled_from(state)
    }

    /// What to hand to NVML for [`Device::serial`]: `nvmlDeviceGetSerial` and
    /// its arguments, without the places that it writes to.
    pub fn serial_call(&self) -> (call: NativeCall)
        ensures
            call == (NativeCall::DeviceGetSerial {
                device: self@,
                length: native::NVML_DEVICE_SERIAL_BUFFER_SIZE,
            }),
    {
        NativeCall::DeviceGetSerial {
            device: self.device,
            length: native::NVML_DEVICE_SERIAL_BUFFER_SIZE,
        }
    }

    /// The serial number of the board of this device.
    ///
    /// Reads what `nvmlDeviceGetSerial` returned. A status other than success
    /// is the error, and nothing that the call wrote is looked at. On success
    /// the text is what stands in the buffer before the first zero byte;
    /// `Utf8DecodeError` where that is not valid UTF-8.
    pub fn serial(&self, status: u32, buffer: &[u8]) -> (result: Result<String, Error>)
        ensures
            view_result(result) == after(status, text_of(buffer@)),
    {
        nvml_try(status)?;
        decode_text(buffer)
    }

    /// What to hand to NVML for [`Device::supported_graphics_clocks`]:
    /// `nvmlDeviceGetSupportedGraphicsClocks` and its arguments, without the
    /// places that it writes to.
    pub fn supported_graphics_clocks_call(
        &self,
        for_mem_clock: u32,
        size: u32,
    ) -> (call: NativeCall)
        ensures
            call == (NativeCall::DeviceGetSupportedGraphicsClocks {
                device: self@,
                memory_clock: for_mem_clock,
                capacity: size,
            }),
    {
        NativeCall::DeviceGetSupportedGraphicsClocks {
            device: self.device,
            memory_clock: for_mem_clock,
            capacity: size,
        }
    }

    /// The graphics clocks (in MHz) that can be set together with the given
    /// memory clock, with room offered for `size` of them.
    ///
    /// Reads what `nvmlDeviceGetSupportedGraphicsClocks` returned. A status
    /// other than success is the error, and nothing that the call wrote is
    /// looked at. On success the result holds the entries that the call
    /// counted, in their order, and none after them, whatever room was
    /// offered.
    pub fn supported_graphics_clocks(
        &self,
        status: u32,
        count: u32,
        clocks: &[u32],
    ) -> (result: Result<Vec<u32>, Error>)
        ensures
            view_result(result) == after(status, Ok(filled(count, clocks@))),
    {
        nvml_try(status)?;
        Ok(take_filled(count, clocks))
    }

    /// What to hand to NVML for [`Device::supported_memory_clocks`]:
    /// `nvmlDeviceGetSupportedMemoryClocks` and its arguments, without the
    /// places that it writes to.
    pub fn supported_memory_clocks_call(&self, size: u32) -> (call: NativeCall)
        ensures
            call == (NativeCall::DeviceGetSupportedMemoryClocks { device: self@, capacity: size }),
    {
        NativeCall::DeviceGetSupportedMemoryClocks { device: self.device, capacity: size }
    }

    /// The memory clocks (in MHz) that can be set, with room offered for
    /// `size` of them.
    ///
    /// Reads what `nvmlDeviceGetSupportedMemoryClocks` returned. A status
    /// other than success is the error, and nothing that the call wrote is
    /// looked at. On success the result holds the entries that the call
    /// counted, in their order, and none after them, whatever room was
    /// offered.
    pub fn supported_memory_clocks(
        &self,
        status: u32,
        count: u32,
        clocks: &[u32],
    ) -> (result: Result<Vec<u32>, Error>)
        ensures
            view_result(result) == after(status, Ok(filled(count, clocks@))),
    {
        nvml_try(status)?;
        Ok(take_filled(count, clocks))
    }

    /// What to hand to NVML for [`Device::temperature`]:
    /// `nvmlDeviceGetTemperature` and its arguments, without the places that
    /// it writes to.
    pub fn temperature_call(&self, sensor: TemperatureSensor) -> (call: NativeCall)
        ensures
            call == (NativeCall::DeviceGetTemperature { device: self@, sensor: sensor.native() }),
    {
        NativeCall::DeviceGetTemperature { device: self.device, sensor: sensor.into_c() }
    }

    /// The current reading of the given sensor, in degrees Celsius.
    ///
    /// Reads what `nvmlDeviceGetTemperature` returned. A status other than
    /// success is the error, and nothing that the call wrote is looked at. On
    /// success the number that it wrote is the result.
    pub fn temperature(&self, status: u32, temp: u32) -> (result: Result<u32, Error>)
        ensures
            result == after(status, Ok(temp)),
    {
        nvml_try(status)?;
        Ok(temp)
    }

    /// What to hand to NVML for [`Device::temperature_threshold`]:
    /// `nvmlDeviceGetTemperatureThreshold` and its arguments, without the
    /// places that it writes to.
    pub fn temperature_threshold_call(
        &self,
        threshold_type: TemperatureThreshold,
    ) -> (call: NativeCall)
        ensures
            call == (NativeCall::DeviceGetTemperatureThreshold {
                device: self@,
                threshold_type: threshold_type.native(),
            }),
    {
        NativeCall::DeviceGetTemperatureThreshold {
            device: self.device,
            threshold_type: threshold_type.into_c(),
        }
    }

    /// The given temperature threshold of this device, in degrees Celsius.
    ///
    /// Reads what `nvmlDeviceGetTemperatureThreshold` returned. A status other
    /// than success is the error, and nothing that the call wrote is looked
    /// at. On success the number that it wrote is the result.
    pub fn temperature_threshold(&self, status: u32, temp: u32) -> (result: Result<u32, Error>)
        ensures
            result == after(status, Ok(temp)),
    {
        nvml_try(status)?;
        Ok(temp)
    }

    /// What to hand to NVML for [`Device::topology_common_ancestor`]:
    /// `nvmlDeviceGetTopologyCommonAncestor` and its arguments, without the
    /// places that it writes to.
    pub fn topology_common_ancestor_call(&self, other_device: &Device) -> (call: NativeCall)
        ensures
            call == (NativeCall::DeviceGetTopologyCommonAncestor {
                device: self@,
                other: other_device@,
            }),
    {
        NativeCall::DeviceGetTopologyCommonAncestor {
            device: self.device,
            other: other_device.c_device(),
        }
    }

    /// The closest level at which this device and the other one are connected.
    /// NVML offers this on Linux only.
    ///
    /// Reads what `nvmlDeviceGetTopologyCommonAncestor` returned. A status
    /// other than success is the error, and nothing that the call wrote is
    /// looked at. On success the integer that it wrote has to be one that is
    /// known; `UnrecognizedEnumVariant` where it is not.
    pub fn topology_common_ancestor(
        &self,
        status: u32,
        level: u32,
    ) -> (result: Result<TopologyLevel, Error>)
        ensures
            result == after(status, recognized(TopologyLevel::from_native(level))),
    {
        nvml_try(status)?;
        TopologyLevel::try_from(level)
    }

    /// What to hand to NVML for [`Device::topology_nearest_gpus`]:
    /// `nvmlDeviceGetTopologyNearestGpus` and its arguments, without the
    /// places that it writes to. NVML takes an unsigned int there: `size` goes
    /// cut to its low 32 bits.
    pub fn topology_nearest_gpus_call(
        &self,
        level: TopologyLevel,
        size: usize,
    ) -> (call: NativeCall)
        ensures
            call == (NativeCall::DeviceGetTopologyNearestGpus {
                device: self@,
                level: level.native(),
                capacity: size as u32,
            }),
    {
        NativeCall::DeviceGetTopologyNearestGpus {
            device: self.device,
            level: level.into_c(),
            capacity: #[verifier::truncate] (size as u32),
        }
    }

    /// The devices that are nearest to this one at the given level, with room
    /// offered for `size` of them. NVML offers this on Linux only.
    ///
    /// Reads what `nvmlDeviceGetTopologyNearestGpus` returned. A status other
    /// than success is the error, and nothing that the call wrote is looked
    /// at. On success the result holds the devices whose handles the call
    /// counted, in their order, and none after them, whatever room was
    /// offered.
    pub fn topology_nearest_gpus(
        &self,
        status: u32,
        count: u32,
        devices: &[usize],
    ) -> (result: Result<Vec<Device<'nvml>>, Error>)
        ensures
            view_devices(result) == after(status, Ok(filled(count, devices@))),
    {
        nvml_try(status)?;
        Ok(devices_from(count, devices))
    }

    /// What to hand to NVML for [`Device::total_ecc_errors`]:
    /// `nvmlDeviceGetTotalEccErrors` and its arguments, without the places
    /// that it writes to.
    pub fn total_ecc_errors_call(
        &self,
        error_type: MemoryError,
        counter_type: EccCounter,
    ) -> (call: NativeCall)
        ensures
            call == (NativeCall::DeviceGetTotalEccErrors {
                device: self@,
                error_type: error_type.native(),
                counter_type: counter_type.native(),
            }),
    {
        NativeCall::DeviceGetTotalEccErrors {
            device: self.device,
            error_type: error_type.into_c(),
            counter_type: counter_type.into_c(),
        }
    }

    /// The total of the ECC errors of the given kind on the given counter.
    ///
    /// Reads what `nvmlDeviceGetTotalEccErrors` returned. A status other than
    /// success is the error, and nothing that the call wrote is looked at. On
    /// success the number that it wrote is the result.
    pub fn total_ecc_errors(&self, status: u32, count: u64) -> (result: Result<u64, Error>)
        ensures
            result == after(status, Ok(count)),
    {
        nvml_try(status)?;
        Ok(count)
    }

    /// What to hand to NVML for [`Device::uuid`]: `nvmlDeviceGetUUID` and its
    /// arguments, without the places that it writes to.
    pub fn uuid_call(&self) -> (call: NativeCall)
        ensures
            call == (NativeCall::DeviceGetUuid {
                device: self@,
                length: native::NVML_DEVICE_UUID_BUFFER_SIZE,
            }),
    {
        NativeCall::DeviceGetUuid {
            device: self.device,
            length: native::NVML_DEVICE_UUID_BUFFER_SIZE,
        }
    }

    /// The UUID of this device: globally unique and never changing, five parts
    /// in hexadecimal.
    ///
    /// Reads what `nvmlDeviceGetUUID` returned. A status other than success is
    /// the error, and nothing that the call wrote is looked at. On success the
    /// text is what stands in the buffer before the first zero byte;
    /// `Utf8DecodeError` where that is not valid UTF-8.
    pub fn uuid(&self, status: u32, buffer: &[u8]) -> (result: Result<String, Error>)
        ensures
            view_result(result) == after(status, text_of(buffer@)),
    {
        nvml_try(status)?;
        decode_text(buffer)
    }

    /// What to hand to NVML for [`Device::utilization_rates`]:
    /// `nvmlDeviceGetUtilizationRates` and its arguments, without the places
    /// that it writes to.
    pub fn utilization_rates_call(&self) -> (call: NativeCall)
        ensures
            call == (NativeCall::DeviceGetUtilizationRates { device: self@ }),
    {
        NativeCall::DeviceGetUtilizationRates { device: self.device }
    }

    /// The current utilization of the major subsystems of this device.
    ///
    /// Reads what `nvmlDeviceGetUtilizationRates` returned. A status other
    /// than success is the error, and nothing that the call wrote is looked
    /// at. On success the result is built from the struct that it filled in.
    pub fn utilization_rates(
        &self,
        status: u32,
        utilization: NativeUtilization,
    ) -> (result: Result<Utilization, Error>)
        ensures
            result == after(status, Ok(Utilization::of(utilization))),
    {
        nvml_try(status)?;
        Ok(Utilization::from(utilization))
    }

    /// What to hand to NVML for [`Device::vbios_version`]:
    /// `nvmlDeviceGetVbiosVersion` and its arguments, without the places that
    /// it writes to.
    pub fn vbios_version_call(&self) -> (call: NativeCall)
        ensures
            call == (NativeCall::DeviceGetVbiosVersion {
                device: self@,
                length: native::NVML_DEVICE_VBIOS_VERSION_BUFFER_SIZE,
            }),
    {
        NativeCall::DeviceGetVbiosVersion {
            device: self.device,
            length: native::NVML_DEVICE_VBIOS_VERSION_BUFFER_SIZE,
        }
    }

    /// The VBIOS version of this device.
    ///
    /// Reads what `nvmlDeviceGetVbiosVersion` returned. A status other than
    /// success is the error, and nothing that the call wrote is looked at. On
    /// success the text is what stands in the buffer before the first zero
    /// byte; `Utf8DecodeError` where that is not valid UTF-8.
    pub fn vbios_version(&self, status: u32, buffer: &[u8]) -> (result: Result<String, Error>)
        ensures
            view_result(result) == after(status, text_of(buffer@)),
    {
        nvml_try(status)?;
        decode_text(buffer)
    }

    /// What to hand to NVML for [`Device::violation_status`]:
    /// `nvmlDeviceGetViolationStatus` and its arguments, without the places
    /// that it writes to.
    pub fn violation_status_call(&self, perf_policy: PerformancePolicy) -> (call: NativeCall)
        ensures
            call == (NativeCall::DeviceGetViolationStatus {
                device: self@,
                perf_policy: perf_policy.native(),
            }),
    {
        NativeCall::DeviceGetViolationStatus {
            device: self.device,
            perf_policy: perf_policy.into_c(),
        }
    }

    /// For how long this device was throttled below the requested clocks by
    /// the given policy.
    ///
    /// Reads what `nvmlDeviceGetViolationStatus` returned. A status other than
    /// success is the error, and nothing that the call wrote is looked at. On
    /// success the result is built from the struct that it filled in.
    pub fn violation_status(
        &self,
        status: u32,
        viol_time: NativeViolationTime,
    ) -> (result: Result<ViolationTime, Error>)
        ensures
            result == after(status, Ok(ViolationTime::of(viol_time))),
    {
        nvml_try(status)?;
        Ok(ViolationTime::from(viol_time))
    }

    /// What to hand to NVML for [`Device::is_on_same_board_as`]:
    /// `nvmlDeviceOnSameBoard` and its arguments, without the places that it
    /// writes to.
    pub fn is_on_same_board_as_call(&self, other_device: &Device) -> (call: NativeCall)
        ensures
            call == (NativeCall::DeviceOnSameBoard { device: self@, other: other_device@ }),
    {
        NativeCall::DeviceOnSameBoard { device: self.device, other: other_device.c_device() }
    }

    /// Whether this device and the other one are on the same physical board.
    ///
    /// Reads what `nvmlDeviceOnSameBoard` returned. A status other than
    /// success is the error, and nothing that the call wrote is looked at. On
    /// success the integer that it wrote is read as `false` where it is 0 and
    /// as `true` anywhere else.
    pub fn is_on_same_board_as(&self, status: u32, bool_int: i32) -> (result: Result<bool, Error>)
        ensures
            result == after(status, Ok(bool_int != 0)),
    {
        nvml_try(status)?;
        Ok(bool_int != 0)
    }

    /// What to hand to NVML for [`Device::reset_applications_clocks`]:
    /// `nvmlDeviceResetApplicationsClocks` and its arguments, without the
    /// places that it writes to.
    pub fn reset_applications_clocks_call(&self) -> (call: NativeCall)
        ensures
            call == (NativeCall::DeviceResetApplicationsClocks { device: self@ }),
    {
        NativeCall::DeviceResetApplicationsClocks { device: self.device }
    }

    /// Resets the applications clocks to their defaults.
    ///
    /// Reads what `nvmlDeviceResetApplicationsClocks` returned. The status is
    /// all that the call returns: success, or the error.
    pub fn reset_applications_clocks(&self, status: u32) -> (result: Result<(), Error>)
        ensures
            result == status_result(status),
    {
        nvml_try(status)
    }

    /// What to hand to NVML for [`Device::set_auto_boosted_clocks`]:
    /// `nvmlDeviceSetAutoBoostedClocksEnabled` and its arguments, without the
    /// places that it writes to.
    pub fn set_auto_boosted_clocks_call(&self, enabled: bool) -> (call: NativeCall)
        ensures
            call == (NativeCall::DeviceSetAutoBoostedClocksEnabled {
                device: self@,
                enabled: state_of(enabled).native(),
            }),
    {
        NativeCall::DeviceSetAutoBoostedClocksEnabled {
            device: self.device,
            enabled: state_from_bool(enabled).into_c(),
        }
    }

    /// Enables or disables auto boosted clocks for now.
    ///
    /// Reads what `nvmlDeviceSetAutoBoostedClocksEnabled` returned. The status
    /// is all that the call returns: success, or the error.
    pub fn set_auto_boosted_clocks(&self, status: u32) -> (result: Result<(), Error>)
        ensures
            result == status_result(status),
    {
        nvml_try(status)
    }

    /// What to hand to NVML for [`Device::set_cpu_affinity`]:
    /// `nvmlDeviceSetCpuAffinity` and its arguments, without the places that
    /// it writes to.
    pub fn set_cpu_affinity_call(&self) -> (call: NativeCall)
        ensures
            call == (NativeCall::DeviceSetCpuAffinity { device: self@ }),
    {
        NativeCall::DeviceSetCpuAffinity { device: self.device }
    }

    /// Binds the calling thread to the processors that are ideal for this
    /// device. NVML offers this on Linux only.
    ///
    /// Reads what `nvmlDeviceSetCpuAffinity` returned. The status is all that
    /// the call returns: success, or the error.
    pub fn set_cpu_affinity(&self, status: u32) -> (result: Result<(), Error>)
        ensures
            result == status_result(status),
    {
        nvml_try(status)
    }

    /// What to hand to NVML for [`Device::set_auto_boosted_clocks_default`]:
    /// `nvmlDeviceSetDefaultAutoBoostedClocksEnabled` and its arguments,
    /// without the places that it writes to.
    pub fn set_auto_boosted_clocks_default_call(&self, enabled: bool) -> (call: NativeCall)
        ensures
            call == (NativeCall::DeviceSetDefaultAutoBoostedClocksEnabled {
                device: self@,
                enabled: state_of(enabled).native(),
                flags: 0,
            }),
    {
        NativeCall::DeviceSetDefaultAutoBoostedClocksEnabled {
            device: self.device,
            enabled: state_from_bool(enabled).into_c(),
            flags: 0,
        }
    }

    /// Enables or disables auto boosted clocks by default. The flags that NVML
    /// takes with it are always 0.
    ///
    /// Reads what `nvmlDeviceSetDefaultAutoBoostedClocksEnabled` returned. The
    /// status is all that the call returns: success, or the error.
    pub fn set_auto_boosted_clocks_default(&self, status: u32) -> (result: Result<(), Error>)
        ensures
            result == status_result(status),
    {
        nvml_try(status)
    }

    /// What to hand to NVML for [`Device::validate_info_rom`]:
    /// `nvmlDeviceValidateInforom` and its arguments, without the places that
    /// it writes to.
    pub fn validate_info_rom_call(&self) -> (call: NativeCall)
        ensures
            call == (NativeCall::DeviceValidateInforom { device: self@ }),
    {
        NativeCall::DeviceValidateInforom { device: self.device }
    }

    /// Reads the infoROM from the flash of this device and checks its
    /// checksum.
    ///
    /// Reads what `nvmlDeviceValidateInforom` returned. The status is all that
    /// the call returns: success, or the error.
    pub fn validate_info_rom(&self, status: u32) -> (result: Result<(), Error>)
        ensures
            result == status_result(status),
    {
        nvml_try(status)
    }

    /// What to hand to NVML for [`Device::clear_accounting_pids`]:
    /// `nvmlDeviceClearAccountingPids` and its arguments, without the places
    /// that it writes to.
    pub fn clear_accounting_pids_call(&self) -> (call: NativeCall)
        ensures
            call == (NativeCall::DeviceClearAccountingPids { device: self@ }),
    {
        NativeCall::DeviceClearAccountingPids { device: self.device }
    }

    /// Clears the accounting information of all processes that have ended.
    ///
    /// Reads what `nvmlDeviceClearAccountingPids` returned. The status is all
    /// that the call returns: success, or the error.
    pub fn clear_accounting_pids(&self, status: u32) -> (result: Result<(), Error>)
        ensures
            result == status_result(status),
    {
        nvml_try(status)
    }

    /// What to hand to NVML for [`Device::accounting_buffer_size`]:
    /// `nvmlDeviceGetAccountingBufferSize` and its arguments, without the
    /// places that it writes to.
    pub fn accounting_buffer_size_call(&self) -> (call: NativeCall)
        ensures
            call == (NativeCall::DeviceGetAccountingBufferSize { device: self@ }),
    {
        NativeCall::DeviceGetAccountingBufferSize { device: self.device }
    }

    /// How many processes the circular buffer of accounting pids can hold.
    ///
    /// Reads what `nvmlDeviceGetAccountingBufferSize` returned. A status other
    /// than success is the error, and nothing that the call wrote is looked
    /// at. On success the number that it wrote is the result.
    pub fn accounting_buffer_size(&self, status: u32, count: u32) -> (result: Result<u32, Error>)
        ensures
            result == after(status, Ok(count)),
    {
        nvml_try(status)?;
        Ok(count)
    }

    /// What to hand to NVML for [`Device::is_accounting_enabled`]:
    /// `nvmlDeviceGetAccountingMode` and its arguments, without the places
    /// that it writes to.
    pub fn is_accounting_enabled_call(&self) -> (call: NativeCall)
        ensures
            call == (NativeCall::DeviceGetAccountingMode { device: self@ }),
    {
        NativeCall::DeviceGetAccountingMode { device: self.device }
    }

    /// Whether per-process accounting is enabled.
    ///
    /// Reads what `nvmlDeviceGetAccountingMode` returned. A status other than
    /// success is the error, and nothing that the call wrote is looked at. On
    /// success the integer that it wrote has to be one of the two enable
    /// states; `UnrecognizedEnumVariant` where it is not.
    pub fn is_accounting_enabled(&self, status: u32, state: u32) -> (result: Result<bool, Error>)
        ensures
            result == after(status, enabled_of(state)),
    {
        nvml_try(status)?;
        enabled_from(state)
    }

    /// What to hand to NVML for [`Device::accounting_pids`]:
    /// `nvmlDeviceGetAccountingPids` and its arguments, without the places
    /// that it writes to. NVML takes an unsigned int there: `size` goes cut to
    /// its low 32 bits.
    pub fn accounting_pids_call(&self, size: usize) -> (call: NativeCall)
        ensures
            call == (NativeCall::DeviceGetAccountingPids { device: self@, capacity: size as u32 }),
    {
        NativeCall::DeviceGetAccountingPids {
            device: self.device,
            capacity: #[verifier::truncate] (size as u32),
        }
    }

    /// The ids of the processes that accounting statistics can be asked for,
    /// with room offered for `size` of them.
    ///
    /// Reads what `nvmlDeviceGetAccountingPids` returned. A status other than
    /// success is the error, and nothing that the call wrote is looked at. On
    /// success the result holds the entries that the call counted, in their
    /// order, and none after them, whatever room was offered.
    pub fn accounting_pids(
        &self,
        status: u32,
        count: u32,
        pids: &[u32],
    ) -> (result: Result<Vec<u32>, Error>)
        ensures
            view_result(result) == after(status, Ok(filled(count, pids@))),
    {
        nvml_try(status)?;
        Ok(take_filled(count, pids))
    }

    /// What to hand to NVML for [`Device::accounting_stats_for`]:
    /// `nvmlDeviceGetAccountingStats` and its arguments, without the places
    /// that it writes to.
    pub fn accounting_stats_for_call(&self, process_id: u32) -> (call: NativeCall)
        ensures
            call == (NativeCall::DeviceGetAccountingStats { device: self@, pid: process_id }),
    {
        NativeCall::DeviceGetAccountingStats { device: self.device, pid: process_id }
    }

    /// The accounting statistics of the given process.
    ///
    /// Reads what `nvmlDeviceGetAccountingStats` returned. A status other than
    /// success is the error, and nothing that the call wrote is looked at. On
    /// success the result is built from the struct that it filled in.
    pub fn accounting_stats_for(
        &self,
        status: u32,
        stats: NativeAccountingStats,
    ) -> (result: Result<AccountingStats, Error>)
        ensures
            result == after(status, Ok(AccountingStats::of(stats))),
    {
        nvml_try(status)?;
        Ok(AccountingStats::from(stats))
    }

    /// What to hand to NVML for [`Device::set_accounting`]:
    /// `nvmlDeviceSetAccountingMode` and its arguments, without the places
    /// that it writes to.
    pub fn set_accounting_call(&self, enabled: bool) -> (call: NativeCall)
        ensures
            call == (NativeCall::DeviceSetAccountingMode {
                device: self@,
                mode: state_of(enabled).native(),
            }),
    {
        NativeCall::DeviceSetAccountingMode {
            device: self.device,
            mode: state_from_bool(enabled).into_c(),
        }
    }

    /// Enables or disables per-process accounting.
    ///
    /// Reads what `nvmlDeviceSetAccountingMode` returned. The status is all
    /// that the call returns: success, or the error.
    pub fn set_accounting(&self, status: u32) -> (result: Result<(), Error>)
        ensures
            result == status_result(status),
    {
        nvml_try(status)
    }

    /// What to hand to NVML for [`Device::clear_ecc_error_counts`]:
    /// `nvmlDeviceClearEccErrorCounts` and its arguments, without the places
    /// that it writes to.
    pub fn clear_ecc_error_counts_call(&self, counter_type: EccCounter) -> (call: NativeCall)
        ensures
            call == (NativeCall::DeviceClearEccErrorCounts {
                device: self@,
                counter_type: counter_type.native(),
            }),
    {
        NativeCall::DeviceClearEccErrorCounts {
            device: self.device,
            counter_type: counter_type.into_c(),
        }
    }

    /// Clears the ECC error counts of the given counter.
    ///
    /// Reads what `nvmlDeviceClearEccErrorCounts` returned. The status is all
    /// that the call returns: success, or the error.
    pub fn clear_ecc_error_counts(&self, status: u32) -> (result: Result<(), Error>)
        ensures
            result == status_result(status),
    {
        nvml_try(status)
    }

    /// What to hand to NVML for [`Device::set_api_restricted`]:
    /// `nvmlDeviceSetAPIRestriction` and its arguments, without the places
    /// that it writes to.
    pub fn set_api_restricted_call(&self, api_type: Api, restricted: bool) -> (call: NativeCall)
        ensures
            call == (NativeCall::DeviceSetApiRestriction {
                device: self@,
                api_type: api_type.native(),
                restricted: state_of(restricted).native(),
            }),
    {
        NativeCall::DeviceSetApiRestriction {
            device: self.device,
            api_type: api_type.into_c(),
            restricted: state_from_bool(restricted).into_c(),
        }
    }

    /// Restricts the given API to root users, or opens it to all.
    ///
    /// Reads what `nvmlDeviceSetAPIRestriction` returned. The status is all
    /// that the call returns: success, or the error.
    pub fn set_api_restricted(&self, status: u32) -> (result: Result<(), Error>)
        ensures
            result == status_result(status),
    {
        nvml_try(status)
    }

    /// What to hand to NVML for [`Device::set_applications_clocks`]:
    /// `nvmlDeviceSetApplicationsClocks` and its arguments, without the places
    /// that it writes to.
    pub fn set_applications_clocks_call(
        &self,
        mem_clock: u32,
        graphics_clock: u32,
    ) -> (call: NativeCall)
        ensures
            call == (NativeCall::DeviceSetApplicationsClocks {
                device: self@,
                memory_clock: mem_clock,
                graphics_clock: graphics_clock,
            }),
    {
        NativeCall::DeviceSetApplicationsClocks {
            device: self.device,
            memory_clock: mem_clock,
            graphics_clock: graphics_clock,
        }
    }

    /// Sets the clocks (in MHz) that applications will lock to.
    ///
    /// Reads what `nvmlDeviceSetApplicationsClocks` returned. The status is
    /// all that the call returns: success, or the error.
    pub fn set_applications_clocks(&self, status: u32) -> (result: Result<(), Error>)
        ensures
            result == status_result(status),
    {
        nvml_try(status)
    }

    /// What to hand to NVML for [`Device::set_compute_mode`]:
    /// `nvmlDeviceSetComputeMode` and its arguments, without the places that
    /// it writes to.
    pub fn set_compute_mode_call(&self, mode: ComputeMode) -> (call: NativeCall)
        ensures
            call == (NativeCall::DeviceSetComputeMode { device: self@, mode: mode.native() }),
    {
        NativeCall::DeviceSetComputeMode { device: self.device, mode: mode.into_c() }
    }

    /// Sets the compute mode of this device.
    ///
    /// Reads what `nvmlDeviceSetComputeMode` returned. The status is all that
    /// the call returns: success, or the error.
    pub fn set_compute_mode(&self, status: u32) -> (result: Result<(), Error>)
        ensures
            result == status_result(status),
    {
        nvml_try(status)
    }

    /// What to hand to NVML for [`Device::set_driver_model`]:
    /// `nvmlDeviceSetDriverModel` and its arguments, without the places that
    /// it writes to.
    pub fn set_driver_model_call(&self, model: DriverModel) -> (call: NativeCall)
        ensures
            call == (NativeCall::DeviceSetDriverModel {
                device: self@,
                model: model.native(),
                flags: 0,
            }),
    {
        NativeCall::DeviceSetDriverModel { device: self.device, model: model.into_c(), flags: 0 }
    }

    /// Sets the driver model of this device, for after the next reboot. The
    /// flags that NVML takes with it are always 0. NVML offers this on Windows
    /// only.
    ///
    /// Reads what `nvmlDeviceSetDriverModel` returned. The status is all that
    /// the call returns: success, or the error.
    pub fn set_driver_model(&self, status: u32) -> (result: Result<(), Error>)
        ensures
            result == status_result(status),
    {
        nvml_try(status)
    }

    /// What to hand to NVML for [`Device::set_ecc`]: `nvmlDeviceSetEccMode`
    /// and its arguments, without the places that it writes to.
    pub fn set_ecc_call(&self, enabled: bool) -> (call: NativeCall)
        ensures
            call == (NativeCall::DeviceSetEccMode {
                device: self@,
                ecc: state_of(enabled).native(),
            }),
    {
        NativeCall::DeviceSetEccMode { device: self.device, ecc: state_from_bool(enabled).into_c() }
    }

    /// Enables or disables ECC mode, for after the next reboot.
    ///
    /// Reads what `nvmlDeviceSetEccMode` returned. The status is all that the
    /// call returns: success, or the error.
    pub fn set_ecc(&self, status: u32) -> (result: Result<(), Error>)
        ensures
            result == status_result(status),
    {
        nvml_try(status)
    }

    /// What to hand to NVML for [`Device::set_gpu_op_mode`]:
    /// `nvmlDeviceSetGpuOperationMode` and its arguments, without the places
    /// that it writes to.
    pub fn set_gpu_op_mode_call(&self, mode: OperationMode) -> (call: NativeCall)
        ensures
            call == (NativeCall::DeviceSetGpuOperationMode { device: self@, mode: mode.native() }),
    {
        NativeCall::DeviceSetGpuOperationMode { device: self.device, mode: mode.into_c() }
    }

    /// Sets the GPU operation mode of this device.
    ///
    /// Reads what `nvmlDeviceSetGpuOperationMode` returned. The status is all
    /// that the call returns: success, or the error.
    pub fn set_gpu_op_mode(&self, status: u32) -> (result: Result<(), Error>)
        ensures
            result == status_result(status),
    {
        nvml_try(status)
    }

    /// What to hand to NVML for [`Device::set_persistent`]:
    /// `nvmlDeviceSetPersistenceMode` and its arguments, without the places
    /// that it writes to.
    pub fn set_persistent_call(&self, enabled: bool) -> (call: NativeCall)
        ensures
            call == (NativeCall::DeviceSetPersistenceMode {
                device: self@,
                mode: state_of(enabled).native(),
            }),
    {
        NativeCall::DeviceSetPersistenceMode {
            device: self.device,
            mode: state_from_bool(enabled).into_c(),
        }
    }

    /// Enables or disables persistence mode. NVML offers this on Linux only.
    ///
    /// Reads what `nvmlDeviceSetPersistenceMode` returned. The status is all
    /// that the call returns: success, or the error.
    pub fn set_persistent(&self, status: u32) -> (result: Result<(), Error>)
        ensures
            result == status_result(status),
    {
        nvml_try(status)
    }

    /// What to hand to NVML for [`Device::set_power_management_limit`]:
    /// `nvmlDeviceSetPowerManagementLimit` and its arguments, without the
    /// places that it writes to.
    pub fn set_power_management_limit_call(&self, limit: u32) -> (call: NativeCall)
        ensures
            call == (NativeCall::DeviceSetPowerManagementLimit { device: self@, limit: limit }),
    {
        NativeCall::DeviceSetPowerManagementLimit { device: self.device, limit: limit }
    }

    /// Sets the power management limit of this device, in milliwatts.
    ///
    /// Reads what `nvmlDeviceSetPowerManagementLimit` returned. The status is
    /// all that the call returns: success, or the error.
    pub fn set_power_management_limit(&self, status: u32) -> (result: Result<(), Error>)
        ensures
            result == status_result(status),
    {
        nvml_try(status)
    }

    /// What to hand to NVML for [`Device::supported_event_types`]:
    /// `nvmlDeviceGetSupportedEventTypes` and its arguments, without the
    /// places that it writes to.
    pub fn supported_event_types_call(&self) -> (call: NativeCall)
        ensures
            call == (NativeCall::DeviceGetSupportedEventTypes { device: self@ }),
    {
        NativeCall::DeviceGetSupportedEventTypes { device: self.device }
    }

    /// The event types that this device supports.
    ///
    /// Reads what `nvmlDeviceGetSupportedEventTypes` returned. A status other
    /// than success is the error, and nothing that the call wrote is looked
    /// at. On success the bits that it wrote have to be bits of event types,
    /// all of them; `UnrecognizedEnumVariant` where one is not.
    pub fn supported_event_types(
        &self,
        status: u32,
        flags: u64,
    ) -> (result: Result<EventTypes, Error>)
        ensures
            view_result(result) == after(status, event_types_of(flags)),
    {
        nvml_try(status)?;
        match EventTypes::from_bits(flags) {
            Some(types) => Ok(types),
            None => Err(Error::new(ErrorKind::UnrecognizedEnumVariant)),
        }
    }
}

} // verus!
