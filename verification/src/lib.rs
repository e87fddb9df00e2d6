//! A verified marshaling layer for the NVIDIA Management Library (NVML).
//!
//! NVML itself is a closed native library. This crate holds everything around
//! it that can be reasoned about: which entry point each operation hands which
//! arguments to, how a native status code becomes a typed error, and how the
//! integers, structs and buffers that a call wrote become owned values.
//!
//! Every operation comes as two functions. The one whose name ends in
//! `_call` gives a [`native::NativeCall`]; the program that links NVML makes
//! that call and hands what it returned to the other, which has the
//! operation's own name and gives its result.

pub mod buffers;
pub mod device;
pub mod enum_wrappers;
pub mod enums;
pub mod errors;
pub mod event;
pub mod native;
pub mod struct_wrappers;
pub mod structs;
pub mod unit;

use vstd::prelude::*;
use crate::buffers::{c_string, c_string_of, decode_text, filled, text_of, view_result};
use crate::device::{devices_from, view_devices, Device};
use crate::enum_wrappers::TopologyLevel;
use crate::errors::{after, nvml_try, recognized, status_result, Error};
use crate::event::EventSet;
use crate::native::NativeCall;
use crate::unit::Unit;

verus! {

/// A session with NVML: the library is initialized while one exists.
///
/// NVML counts its initializations, so several sessions may exist at once;
/// each is shut down on its own, and NVML only winds down with the last.
/// Devices, units and event sets borrow the session that they come from, so
/// that none of them is left when it is shut down.
#[derive(Debug)]
pub struct NVML {
    _private: (),
}

/// Whether an operation went through, whatever it gave.
pub open spec fn outcome<T>(result: Result<T, Error>) -> Result<(), Error> {
    match result {
        Ok(_) => Ok(()),
        Err(error) => Err(error),
    }
}

impl NVML {
    /// What to hand to NVML for [`NVML::init`]: `nvmlInit_v2`, which takes
    /// nothing.
    pub fn init_call() -> (call: NativeCall)
        ensures
            call == NativeCall::Init,
    {
        NativeCall::Init
    }

    /// Starts a session.
    ///
    /// Reads the status that `nvmlInit_v2` returned: there is a session
    /// exactly when it is success. This initializes NVML, not any GPU.
    pub fn init(status: u32) -> (result: Result<NVML, Error>)
        ensures
            outcome(result) == status_result(status),
    {
        nvml_try(status)?;
        Ok(NVML { _private: () })
    }

    /// What to hand to NVML for [`NVML::shutdown`]: `nvmlShutdown`, which
    /// takes nothing.
    pub fn shutdown_call(&self) -> (call: NativeCall)
        ensures
            call == NativeCall::Shutdown,
    {
        NativeCall::Shutdown
    }

    /// Ends this session, and reads the status that `nvmlShutdown` returned
    /// for it. The session is gone either way.
    pub fn shutdown(self, status: u32) -> (result: Result<(), Error>)
        ensures
            result == status_result(status),
    {
        nvml_try(status)
    }

    /// What to hand to NVML for [`NVML::device_count`]:
    /// `nvmlDeviceGetCount_v2` and its arguments, without the places that it
    /// writes to.
    pub fn device_count_call(&self) -> (call: NativeCall)
        ensures
            call == NativeCall::DeviceGetCount,
    {
        NativeCall::DeviceGetCount
    }

    /// The number of devices in the system. Some of them may be out of reach
    /// for want of permission.
    ///
    /// Reads what `nvmlDeviceGetCount_v2` returned. A status other than
    /// success is the error, and nothing that the call wrote is looked at. On
    /// success the number that it wrote is the result.
    pub fn device_count(&self, status: u32, count: u32) -> (result: Result<u32, Error>)
        ensures
            result == after(status, Ok(count)),
    {
        nvml_try(status)?;
        Ok(count)
    }

    /// What to hand to NVML for [`NVML::sys_driver_version`]:
    /// `nvmlSystemGetDriverVersion` and its arguments, without the places that
    /// it writes to.
    pub fn sys_driver_version_call(&self) -> (call: NativeCall)
        ensures
            call == (NativeCall::SystemGetDriverVersion {
                length: native::NVML_SYSTEM_DRIVER_VERSION_BUFFER_SIZE,
            }),
    {
        NativeCall::SystemGetDriverVersion {
            length: native::NVML_SYSTEM_DRIVER_VERSION_BUFFER_SIZE,
        }
    }

    /// The version of the graphics driver of the system.
    ///
    /// Reads what `nvmlSystemGetDriverVersion` returned. A status other than
    /// success is the error, and nothing that the call wrote is looked at. On
    /// success the text is what stands in the buffer before the first zero
    /// byte; `Utf8DecodeError` where that is not valid UTF-8.
    pub fn sys_driver_version(&self, status: u32, buffer: &[u8]) -> (result: Result<String, Error>)
        ensures
            view_result(result) == after(status, text_of(buffer@)),
    {
        nvml_try(status)?;
        decode_text(buffer)
    }

    /// What to hand to NVML for [`NVML::sys_nvml_version`]:
    /// `nvmlSystemGetNVMLVersion` and its arguments, without the places that
    /// it writes to.
    pub fn sys_nvml_version_call(&self) -> (call: NativeCall)
        ensures
            call == (NativeCall::SystemGetNvmlVersion {
                length: native::NVML_SYSTEM_NVML_VERSION_BUFFER_SIZE,
            }),
    {
        NativeCall::SystemGetNvmlVersion { length: native::NVML_SYSTEM_NVML_VERSION_BUFFER_SIZE }
    }

    /// The version of NVML itself.
    ///
    /// Reads what `nvmlSystemGetNVMLVersion` returned. A status other than
    /// success is the error, and nothing that the call wrote is looked at. On
    /// success the text is what stands in the buffer before the first zero
    /// byte; `Utf8DecodeError` where that is not valid UTF-8.
    pub fn sys_nvml_version(&self, status: u32, buffer: &[u8]) -> (result: Result<String, Error>)
        ensures
            view_result(result) == after(status, text_of(buffer@)),
    {
        nvml_try(status)?;
        decode_text(buffer)
    }

    /// What to hand to NVML for [`NVML::sys_process_name`]:
    /// `nvmlSystemGetProcessName` and its arguments, without the places that
    /// it writes to. NVML takes an unsigned int there: `length` goes cut to
    /// its low 32 bits.
    pub fn sys_process_name_call(&self, pid: u32, length: usize) -> (call: NativeCall)
        ensures
            call == (NativeCall::SystemGetProcessName { pid: pid, length: length as u32 }),
    {
        NativeCall::SystemGetProcessName { pid: pid, length: #[verifier::truncate] (length as u32) }
    }

    /// The name of the process with the given id, cut to `length` bytes,
    /// terminator included.
    ///
    /// Reads what `nvmlSystemGetProcessName` returned. A status other than
    /// success is the error, and nothing that the call wrote is looked at. On
    /// success the text is what stands in the buffer before the first zero
    /// byte; `Utf8DecodeError` where that is not valid UTF-8.
    pub fn sys_process_name(&self, status: u32, buffer: &[u8]) -> (result: Result<String, Error>)
        ensures
            view_result(result) == after(status, text_of(buffer@)),
    {
        nvml_try(status)?;
        decode_text(buffer)
    }

    /// What to hand to NVML for [`NVML::device_by_index`]:
    /// `nvmlDeviceGetHandleByIndex_v2` and its arguments, without the places
    /// that it writes to.
    pub fn device_by_index_call(&self, index: u32) -> (call: NativeCall)
        ensures
            call == (NativeCall::DeviceGetHandleByIndex { index: index }),
    {
        NativeCall::DeviceGetHandleByIndex { index: index }
    }

    /// The device at the given index, which starts at 0. The order of the
    /// devices may change with a reboot.
    ///
    /// Reads what `nvmlDeviceGetHandleByIndex_v2` returned. A status other
    /// than success is the error, and nothing that the call wrote is looked
    /// at. On success the result stands for the handle that it wrote, and
    /// borrows this session.
    pub fn device_by_index(&self, status: u32, device: usize) -> (result: Result<Device<'_>, Error>)
        ensures
            view_result(result) == after(status, Ok(device)),
    {
        nvml_try(status)?;
        Ok(Device::new(self, device))
    }

    /// What to hand to NVML for [`NVML::device_by_pci_bus_id`]:
    /// `nvmlDeviceGetHandleByPciBusId_v2` and its arguments, without the
    /// places that it writes to. The text goes as a zero-terminated string.
    /// `UnexpectedNullByte` where it holds a zero byte itself: then there is
    /// nothing to call.
    pub fn device_by_pci_bus_id_call(&self, pci_bus_id: &str) -> (call: Result<NativeCall, Error>)
        ensures
            match c_string_of(pci_bus_id@) {
                Ok(bytes) => (call matches Ok(
                    NativeCall::DeviceGetHandleByPciBusId { pci_bus_id: string },
                ) && string@ == bytes),
                Err(error) => call == Err::<NativeCall, Error>(error),
            },
    {
        Ok(NativeCall::DeviceGetHandleByPciBusId { pci_bus_id: c_string(pci_bus_id)? })
    }

    /// The device with the given PCI bus id.
    ///
    /// Reads what `nvmlDeviceGetHandleByPciBusId_v2` returned. A status other
    /// than success is the error, and nothing that the call wrote is looked
    /// at. On success the result stands for the handle that it wrote, and
    /// borrows this session.
    pub fn device_by_pci_bus_id(
        &self,
        status: u32,
        device: usize,
    ) -> (result: Result<Device<'_>, Error>)
        ensures
            view_result(result) == after(status, Ok(device)),
    {
        nvml_try(status)?;
        Ok(Device::new(self, device))
    }

    /// What to hand to NVML for [`NVML::device_by_serial`]:
    /// `nvmlDeviceGetHandleBySerial` and its arguments, without the places
    /// that it writes to. The text goes as a zero-terminated string.
    /// `UnexpectedNullByte` where it holds a zero byte itself: then there is
    /// nothing to call.
    pub fn device_by_serial_call(&self, board_serial: &str) -> (call: Result<NativeCall, Error>)
        ensures
            match c_string_of(board_serial@) {
                Ok(bytes) => (call matches Ok(
                    NativeCall::DeviceGetHandleBySerial { serial: string },
                ) && string@ == bytes),
                Err(error) => call == Err::<NativeCall, Error>(error),
            },
    {
        Ok(NativeCall::DeviceGetHandleBySerial { serial: c_string(board_serial)? })
    }

    /// The device on the board with the given serial number. NVML has
    /// deprecated this lookup: it fails on boards with two GPUs.
    ///
    /// Reads what `nvmlDeviceGetHandleBySerial` returned. A status other than
    /// success is the error, and nothing that the call wrote is looked at. On
    /// success the result stands for the handle that it wrote, and borrows
    /// this session.
    pub fn device_by_serial(
        &self,
        status: u32,
        device: usize,
    ) -> (result: Result<Device<'_>, Error>)
        ensures
            view_result(result) == after(status, Ok(device)),
    {
        nvml_try(status)?;
        Ok(Device::new(self, device))
    }

    /// What to hand to NVML for [`NVML::device_by_uuid`]:
    /// `nvmlDeviceGetHandleByUUID` and its arguments, without the places that
    /// it writes to. The text goes as a zero-terminated string.
    /// `UnexpectedNullByte` where it holds a zero byte itself: then there is
    /// nothing to call.
    pub fn device_by_uuid_call(&self, uuid: &str) -> (call: Result<NativeCall, Error>)
        ensures
            match c_string_of(uuid@) {
                Ok(bytes) => (call matches Ok(
                    NativeCall::DeviceGetHandleByUuid { uuid: string },
                ) && string@ == bytes),
                Err(error) => call == Err::<NativeCall, Error>(error),
            },
    {
        Ok(NativeCall::DeviceGetHandleByUuid { uuid: c_string(uuid)? })
    }

    /// The device with the given UUID.
    ///
    /// Reads what `nvmlDeviceGetHandleByUUID` returned. A status other than
    /// success is the error, and nothing that the call wrote is looked at. On
    /// success the result stands for the handle that it wrote, and borrows
    /// this session.
    pub fn device_by_uuid(&self, status: u32, device: usize) -> (result: Result<Device<'_>, Error>)
        ensures
            view_result(result) == after(status, Ok(device)),
    {
        nvml_try(status)?;
        Ok(Device::new(self, device))
    }

    /// What to hand to NVML for [`NVML::topology_common_ancestor`]:
    /// `nvmlDeviceGetTopologyCommonAncestor` and its arguments, without the
    /// places that it writes to.
    pub fn topology_common_ancestor_call(
        &self,
        device1: &Device,
        device2: &Device,
    ) -> (call: NativeCall)
        ensures
            call == (NativeCall::DeviceGetTopologyCommonAncestor {
                device: device1@,
                other: device2@,
            }),
    {
        NativeCall::DeviceGetTopologyCommonAncestor {
            device: device1.c_device(),
            other: device2.c_device(),
        }
    }

    /// The closest level at which the two devices are connected. NVML offers
    /// this on Linux only.
    ///
    /// Reads what `nvmlDeviceGetTopologyCommonAncestor` returned. A status
    /// other than success is the error, and nothing that the call wrote is
    /// looked at. On success the integer that it wrote has to be one that is
    /// known; `UnrecognizedEnumVariant` where it is not.
    pub fn topology_common_ancestor(
        &self,
        status: u32,
        level: u32,
    ) -> (result: Result<TopologyLevel, Error>)
        ensures
            result == after(status, recognized(TopologyLevel::from_native(level))),
    {
        nvml_try(status)?;
        TopologyLevel::try_from(level)
    }

    /// What to hand to NVML for [`NVML::topology_nearest_gpus`]:
    /// `nvmlDeviceGetTopologyNearestGpus` and its arguments, without the
    /// places that it writes to. NVML takes an unsigned int there: `size` goes
    /// cut to its low 32 bits.
    pub fn topology_nearest_gpus_call(
        &self,
        device: &Device,
        level: TopologyLevel,
        size: usize,
    ) -> (call: NativeCall)
        ensures
            call == (NativeCall::DeviceGetTopologyNearestGpus {
                device: device@,
                level: level.native(),
                capacity: size as u32,
            }),
    {
        NativeCall::DeviceGetTopologyNearestGpus {
            device: device.c_device(),
            level: level.into_c(),
            capacity: #[verifier::truncate] (size as u32),
        }
    }

    /// The devices that are nearest to the given one at the given level, with
    /// room offered for `size` of them. NVML offers this on Linux only.
    ///
    /// Reads what `nvmlDeviceGetTopologyNearestGpus` returned. A status other
    /// than success is the error, and nothing that the call wrote is looked
    /// at. On success the result holds the devices whose handles the call
    /// counted, in their order, and none after them, whatever room was
    /// offered.
    pub fn topology_nearest_gpus(
        &self,
        status: u32,
        count: u32,
        devices: &[usize],
    ) -> (result: Result<Vec<Device<'_>>, Error>)
        ensures
            view_devices(result) == after(status, Ok(filled(count, devices@))),
    {
        nvml_try(status)?;
        Ok(devices_from(count, devices))
    }

    /// What to hand to NVML for [`NVML::unit_by_index`]:
    /// `nvmlUnitGetHandleByIndex` and its arguments, without the places that
    /// it writes to.
    pub fn unit_by_index_call(&self, index: u32) -> (call: NativeCall)
        ensures
            call == (NativeCall::UnitGetHandleByIndex { index: index }),
    {
        NativeCall::UnitGetHandleByIndex { index: index }
    }

    /// The unit at the given index, which starts at 0. The order of the units
    /// may change with a reboot.
    ///
    /// Reads what `nvmlUnitGetHandleByIndex` returned. A status other than
    /// success is the error, and nothing that the call wrote is looked at. On
    /// success the result stands for the handle that it wrote, and borrows
    /// this session.
    pub fn unit_by_index(&self, status: u32, unit: usize) -> (result: Result<Unit<'_>, Error>)
        ensures
            view_result(result) == after(status, Ok(unit)),
    {
        nvml_try(status)?;
        Ok(Unit::new(self, unit))
    }

    /// What to hand to NVML for [`NVML::is_device_on_same_board_as`]:
    /// `nvmlDeviceOnSameBoard` and its arguments, without the places that it
    /// writes to.
    pub fn is_device_on_same_board_as_call(device1: &Device, device2: &Device) -> (call: NativeCall)
        ensures
            call == (NativeCall::DeviceOnSameBoard { device: device1@, other: device2@ }),
    {
        NativeCall::DeviceOnSameBoard { device: device1.c_device(), other: device2.c_device() }
    }

    /// Whether the two devices are on the same physical board.
    ///
    /// Reads what `nvmlDeviceOnSameBoard` returned. A status other than
    /// success is the error, and nothing that the call wrote is looked at. On
    /// success the integer that it wrote is read as `false` where it is 0 and
    /// as `true` anywhere else.
    pub fn is_device_on_same_board_as(status: u32, bool_int: i32) -> (result: Result<bool, Error>)
        ensures
            result == after(status, Ok(bool_int != 0)),
    {
        nvml_try(status)?;
        Ok(bool_int != 0)
    }

    /// What to hand to NVML for [`NVML::topology_gpu_set`]:
    /// `nvmlSystemGetTopologyGpuSet` and its arguments, without the places
    /// that it writes to. NVML takes an unsigned int there: `size` goes cut to
    /// its low 32 bits.
    pub fn topology_gpu_set_call(&self, cpu_number: u32, size: usize) -> (call: NativeCall)
        ensures
            call == (NativeCall::SystemGetTopologyGpuSet {
                cpu_number: cpu_number,
                capacity: size as u32,
            }),
    {
        NativeCall::SystemGetTopologyGpuSet {
            cpu_number: cpu_number,
            capacity: #[verifier::truncate] (size as u32),
        }
    }

    /// The devices that have an affinity with the given CPU, with room offered
    /// for `size` of them. NVML offers this on Linux only.
    ///
    /// Reads what `nvmlSystemGetTopologyGpuSet` returned. A status other than
    /// success is the error, and nothing that the call wrote is looked at. On
    /// success the result holds the devices whose handles the call counted, in
    /// their order, and none after them, whatever room was offered.
    pub fn topology_gpu_set(
        &self,
        status: u32,
        count: u32,
        devices: &[usize],
    ) -> (result: Result<Vec<Device<'_>>, Error>)
        ensures
            view_devices(result) == after(status, Ok(filled(count, devices@))),
    {
        nvml_try(status)?;
        Ok(devices_from(count, devices))
    }

    /// What to hand to NVML for [`NVML::unit_count`]: `nvmlUnitGetCount` and
    /// its arguments, without the places that it writes to.
    pub fn unit_count_call(&self) -> (call: NativeCall)
        ensures
            call == NativeCall::UnitGetCount,
    {
        NativeCall::UnitGetCount
    }

    /// The number of units in the system.
    ///
    /// Reads what `nvmlUnitGetCount` returned. A status other than success is
    /// the error, and nothing that the call wrote is looked at. On success the
    /// number that it wrote is the result.
    pub fn unit_count(&self, status: u32, count: u32) -> (result: Result<u32, Error>)
        ensures
            result == after(status, Ok(count)),
    {
        nvml_try(status)?;
        Ok(count)
    }

    /// What to hand to NVML for [`NVML::create_event_set`]:
    /// `nvmlEventSetCreate` and its arguments, without the places that it
    /// writes to.
    pub fn create_event_set_call(&self) -> (call: NativeCall)
        ensures
            call == NativeCall::EventSetCreate,
    {
        NativeCall::EventSetCreate
    }

    /// A new, empty set of events.
    ///
    /// Reads what `nvmlEventSetCreate` returned. A status other than success
    /// is the error, and nothing that the call wrote is looked at. On success
    /// the result stands for the handle that it wrote, and borrows this
    /// session.
    pub fn create_event_set(&self, status: u32, set: usize) -> (result: Result<EventSet<'_>, Error>)
        ensures
            view_result(result) == after(status, Ok(set)),
    {
        nvml_try(status)?;
        Ok(EventSet::new(self, set))
    }
}

} // verus!
