//! The native surface: the status codes, buffer sizes and sentinels that the
//! NVML header declares, its structs as plain data, and one value for every
//! call into the library.
//!
//! A handle of NVML is an address that means nothing outside the library; it
//! is held as a `usize` and only ever handed back.

use vstd::prelude::*;
use crate::errors::{recognized, Error, ErrorKind};

verus! {

/// The call went through.
pub const NVML_SUCCESS: u32 = 0;
/// NVML was not first initialized.
pub const NVML_ERROR_UNINITIALIZED: u32 = 1;
/// A supplied argument is invalid.
pub const NVML_ERROR_INVALID_ARGUMENT: u32 = 2;
/// The requested operation is not available on the target device.
pub const NVML_ERROR_NOT_SUPPORTED: u32 = 3;
/// The current user does not have permission for the operation.
pub const NVML_ERROR_NO_PERMISSION: u32 = 4;
/// A query to find an object was unsuccessful.
pub const NVML_ERROR_NOT_FOUND: u32 = 6;
/// An input argument is not large enough.
pub const NVML_ERROR_INSUFFICIENT_SIZE: u32 = 7;
/// A device's external power cables are not properly attached.
pub const NVML_ERROR_INSUFFICIENT_POWER: u32 = 8;
/// The NVIDIA driver is not loaded.
pub const NVML_ERROR_DRIVER_NOT_LOADED: u32 = 9;
/// The user-provided timeout passed.
pub const NVML_ERROR_TIMEOUT: u32 = 10;
/// The NVIDIA kernel detected an interrupt issue with a GPU.
pub const NVML_ERROR_IRQ_ISSUE: u32 = 11;
/// The infoROM is corrupted.
pub const NVML_ERROR_CORRUPTED_INFOROM: u32 = 14;
/// The GPU has fallen off the bus or has otherwise become inaccessible.
pub const NVML_ERROR_GPU_IS_LOST: u32 = 15;
/// The GPU requires a reset before it can be used again.
pub const NVML_ERROR_RESET_REQUIRED: u32 = 16;
/// The GPU control device has been blocked by the operating system.
pub const NVML_ERROR_OPERATING_SYSTEM: u32 = 17;
/// An operation cannot be performed because the GPU is currently in use.
pub const NVML_ERROR_IN_USE: u32 = 19;
/// An internal driver error occurred.
pub const NVML_ERROR_UNKNOWN: u32 = 999;


/// Size of the buffer for a device's infoROM version.
pub const NVML_DEVICE_INFOROM_VERSION_BUFFER_SIZE: u32 = 16;
/// Size of the buffer for a device's UUID.
pub const NVML_DEVICE_UUID_BUFFER_SIZE: u32 = 80;
/// Size of the buffer for a device's name.
pub const NVML_DEVICE_NAME_BUFFER_SIZE: u32 = 64;
/// Size of the buffer for a device's serial number.
pub const NVML_DEVICE_SERIAL_BUFFER_SIZE: u32 = 30;
/// Size of the buffer for a device's VBIOS version.
pub const NVML_DEVICE_VBIOS_VERSION_BUFFER_SIZE: u32 = 32;
/// Size of the buffer for the driver's version.
pub const NVML_SYSTEM_DRIVER_VERSION_BUFFER_SIZE: u32 = 80;
/// Size of the buffer for the version of NVML itself.
pub const NVML_SYSTEM_NVML_VERSION_BUFFER_SIZE: u32 = 80;
/// What NVML writes into a 32-bit field whose value is not available.
pub const NVML_VALUE_NOT_AVAILABLE_U32: u32 = 0xffff_ffff;
/// What NVML writes into a 64-bit field whose value is not available.
pub const NVML_VALUE_NOT_AVAILABLE_U64: u64 = 0xffff_ffff_ffff_ffff;

/// Event about single bit ECC errors.
pub const NVML_EVENT_TYPE_SINGLE_BIT_ECC_ERROR: u64 = 0x1;
/// Event about double bit ECC errors.
pub const NVML_EVENT_TYPE_DOUBLE_BIT_ECC_ERROR: u64 = 0x2;
/// Event about performance state changes.
pub const NVML_EVENT_TYPE_PSTATE: u64 = 0x4;
/// Event that an XID critical error occurred.
pub const NVML_EVENT_TYPE_XID_CRITICAL_ERROR: u64 = 0x8;
/// Event about clock changes.
pub const NVML_EVENT_TYPE_CLOCK: u64 = 0x10;
/// Every event type at once.
pub const NVML_EVENT_TYPE_ALL: u64 = 0x1f;

/// Whether a feature is enabled, as NVML reports and takes it.
#[derive(Clone, Copy, Debug, PartialEq, Eq, Hash, Structural)]
pub enum EnableState {
    /// The feature is disabled.
    Disabled,
    /// The feature is enabled.
    Enabled,
}

impl EnableState {
    /// The integer that NVML uses for this state.
    pub open spec fn native(self) -> u32 {
        match self {
            EnableState::Disabled => 0,
            EnableState::Enabled => 1,
        }
    }

    /// The state that an integer of NVML stands for, if there is one.
    pub open spec fn from_native(value: u32) -> Option<EnableState> {
        if value == 0 {
            Some(EnableState::Disabled)
        } else if value == 1 {
            Some(EnableState::Enabled)
        } else {
            None
        }
    }

    /// The integer that NVML uses for this state.
    pub fn into_c(&self) -> (value: u32)
        ensures
            value == self.native(),
    {
        match self {
            EnableState::Disabled => 0,
            EnableState::Enabled => 1,
        }
    }

    /// The state that `value` stands for. Fails with
    /// `UnrecognizedEnumVariant` where it stands for none.
    pub fn try_from(value: u32) -> (result: Result<EnableState, Error>)
        ensures
            result == recognized(EnableState::from_native(value)),
    {
        match value {
            0 => Ok(EnableState::Disabled),
            1 => Ok(EnableState::Enabled),
            _ => Err(Error::new(ErrorKind::UnrecognizedEnumVariant)),
        }
    }

    /// The integer of a state stands for that state again.
    pub proof fn lemma_round_trip(self)
        ensures
            EnableState::from_native(self.native()) == Some(self),
    {
    }

    /// An integer stands for a state exactly when it is the integer of that
    /// state; so an integer of no state stands for none.
    pub proof fn lemma_recognized(value: u32, state: EnableState)
        ensures
            EnableState::from_native(value) == Some(state) <==> state.native() == value,
    {
    }
}

/// PCI information of a device, as NVML fills it in.
#[derive(Clone, Copy, Debug, PartialEq, Eq)]
pub struct NativePciInfo {
    /// The tuple domain:bus:device.function as zero-terminated text.
    pub bus_id: [u8; 16],
    /// The PCI domain on which the device's bus resides.
    pub domain: u32,
    /// The bus on which the device resides.
    pub bus: u32,
    /// The device's id on the bus.
    pub device: u32,
    /// The combined 16-bit device id and 16-bit vendor id.
    pub pci_device_id: u32,
    /// The 32-bit sub system device id.
    pub pci_sub_system_id: u32,
}

/// BAR1 memory allocation of a device (in bytes), as NVML fills it in.
#[derive(Clone, Copy, Debug, PartialEq, Eq)]
pub struct NativeBar1Memory {
    /// Total BAR1 memory.
    pub bar1_total: u64,
    /// Unallocated BAR1 memory.
    pub bar1_free: u64,
    /// Allocated BAR1 memory.
    pub bar1_used: u64,
}

/// One bridge chip, as NVML fills it in.
#[derive(Clone, Copy, Debug, PartialEq, Eq)]
pub struct NativeBridgeChipInfo {
    /// Type of the bridge chip, as an integer of NVML.
    pub chip_type: u32,
    /// Firmware version; 0 where it is not available.
    pub fw_version: u32,
}

/// The bridge chips of a board, as NVML fills them in. Only the first
/// `bridge_count` entries hold anything.
#[derive(Clone, Copy, Debug, PartialEq, Eq)]
pub struct NativeBridgeChipHierarchy {
    /// Number of bridge chips on the board.
    pub bridge_count: u8,
    /// The bridge chips, the immediate bridge first.
    pub bridge_chip_info: [NativeBridgeChipInfo; 128],
}

/// A process running on a device, as NVML fills it in.
#[derive(Clone, Copy, Debug, PartialEq, Eq)]
pub struct NativeProcessInfo {
    /// Process id.
    pub pid: u32,
    /// Used GPU memory in bytes, or the 64-bit not-available sentinel.
    pub used_gpu_memory: u64,
}

/// Detailed ECC error counts of a device, as NVML fills them in.
#[derive(Clone, Copy, Debug, PartialEq, Eq)]
pub struct NativeEccErrorCounts {
    /// L1 cache errors.
    pub l1_cache: u64,
    /// L2 cache errors.
    pub l2_cache: u64,
    /// Device memory errors.
    pub device_memory: u64,
    /// Register file errors.
    pub register_file: u64,
}

/// Memory allocation of a device (in bytes), as NVML fills it in.
#[derive(Clone, Copy, Debug, PartialEq, Eq)]
pub struct NativeMemory {
    /// Total installed FB memory.
    pub total: u64,
    /// Unallocated FB memory.
    pub free: u64,
    /// Allocated FB memory.
    pub used: u64,
}

/// Utilization of a device, as NVML fills it in.
#[derive(Clone, Copy, Debug, PartialEq, Eq)]
pub struct NativeUtilization {
    /// Percent of time over the past sample period during which a kernel ran.
    pub gpu: u32,
    /// Percent of time over the past sample period during which device memory
    /// was read or written.
    pub memory: u32,
}

/// Performance policy violation times, as NVML fills them in.
#[derive(Clone, Copy, Debug, PartialEq, Eq)]
pub struct NativeViolationTime {
    /// CPU timestamp in microseconds.
    pub reference_time: u64,
    /// Violation time in nanoseconds.
    pub violation_time: u64,
}

/// An HWBC entry, as NVML fills it in.
#[derive(Clone, Copy, Debug, PartialEq, Eq)]
pub struct NativeHwbcEntry {
    /// Id of the entry.
    pub hwbc_id: u32,
    /// Firmware version as zero-terminated text.
    pub firmware_version: [u8; 32],
}

/// One fan of an S-class unit, as NVML fills it in.
#[derive(Clone, Copy, Debug, PartialEq, Eq)]
pub struct NativeUnitFanInfo {
    /// Fan speed (RPM).
    pub speed: u32,
    /// State of the fan, as an integer of NVML.
    pub state: u32,
}

/// The fans of an S-class unit, as NVML fills them in. Only the first
/// `count` entries hold anything.
#[derive(Clone, Copy, Debug, PartialEq, Eq)]
pub struct NativeUnitFanSpeeds {
    /// Fan data for each fan.
    pub fans: [NativeUnitFanInfo; 24],
    /// Number of fans in the unit.
    pub count: u32,
}

/// Power supply readings of an S-class unit, as NVML fills them in.
#[derive(Clone, Copy, Debug, PartialEq, Eq)]
pub struct NativePsuInfo {
    /// Description of the PSU state as zero-terminated text.
    pub state: [u8; 256],
    /// PSU current (in A).
    pub current: u32,
    /// PSU voltage (in V).
    pub voltage: u32,
    /// PSU power draw (in W).
    pub power: u32,
}

/// Static information on an S-class unit, as NVML fills it in. Each field is
/// zero-terminated text.
#[derive(Clone, Copy, Debug, PartialEq, Eq)]
pub struct NativeUnitInfo {
    /// Product name.
    pub name: [u8; 96],
    /// Product identifier.
    pub id: [u8; 96],
    /// Product serial number.
    pub serial: [u8; 96],
    /// Firmware version.
    pub firmware_version: [u8; 96],
}

/// Accounting statistics of a process, as NVML fills them in.
#[derive(Clone, Copy, Debug, PartialEq, Eq)]
pub struct NativeAccountingStats {
    /// Percent of time during which a kernel of the process ran, or the
    /// 32-bit not-available sentinel.
    pub gpu_utilization: u32,
    /// Percent of time during which the process read or wrote device memory,
    /// or the 32-bit not-available sentinel.
    pub memory_utilization: u32,
    /// Most memory in bytes that the process ever had allocated, or the
    /// 64-bit not-available sentinel.
    pub max_memory_usage: u64,
    /// Time in ms during which the compute context was active.
    pub time: u64,
    /// CPU timestamp in usec of the start of the process.
    pub start_time: u64,
    /// 0 where the process has ended, anything else where it is running.
    pub is_running: u32,
}

/// An event, as NVML fills it in.
#[derive(Clone, Copy, Debug, PartialEq, Eq)]
pub struct NativeEventData {
    /// Handle of the device on which the event occurred.
    pub device: usize,
    /// What kind of event occurred, as a bit of the event types.
    pub event_type: u64,
    /// The last XID error of the device for an XID event, 0 otherwise.
    pub event_data: u64,
}

/// One call into NVML: the entry point, and the arguments that go in. The
/// places that the call writes to are not part of it; what it wrote comes
/// back, with the status, to the function that reads it.
///
/// A handle among the arguments is a `usize`, an enumeration is the
/// integer that NVML uses for it, and text is a zero-terminated string.
#[derive(Debug, PartialEq, Eq)]
pub enum NativeCall {
    /// `nvmlInit_v2`. Initializes NVML, or counts one more initialization.
    Init,
    /// `nvmlShutdown`. Takes one initialization back; the last one winds NVML
    /// down.
    Shutdown,
    /// `nvmlDeviceGetCount_v2`. The number of devices in the system. Some of
    /// them may be out of reach for want of permission.
    DeviceGetCount,
    /// `nvmlSystemGetDriverVersion`. The version of the graphics driver of the
    /// system.
    SystemGetDriverVersion {
        length: u32,
    },
    /// `nvmlSystemGetNVMLVersion`. The version of NVML itself.
    SystemGetNvmlVersion {
        length: u32,
    },
    /// `nvmlSystemGetProcessName`. The name of the process with the given id,
    /// cut to `length` bytes, terminator included.
    SystemGetProcessName {
        pid: u32,
        length: u32,
    },
    /// `nvmlDeviceGetHandleByIndex_v2`. The device at the given index, which
    /// starts at 0. The order of the devices may change with a reboot.
    DeviceGetHandleByIndex {
        index: u32,
    },
    /// `nvmlDeviceGetHandleByPciBusId_v2`. The device with the given PCI bus
    /// id.
    DeviceGetHandleByPciBusId {
        pci_bus_id: Vec<u8>,
    },
    /// `nvmlDeviceGetHandleBySerial`. The device on the board with the given
    /// serial number. NVML has deprecated this lookup: it fails on boards with
    /// two GPUs.
    DeviceGetHandleBySerial {
        serial: Vec<u8>,
    },
    /// `nvmlDeviceGetHandleByUUID`. The device with the given UUID.
    DeviceGetHandleByUuid {
        uuid: Vec<u8>,
    },
    /// `nvmlUnitGetHandleByIndex`. The unit at the given index, which starts
    /// at 0. The order of the units may change with a reboot.
    UnitGetHandleByIndex {
        index: u32,
    },
    /// `nvmlSystemGetTopologyGpuSet`. The devices that have an affinity with
    /// the given CPU, with room offered for `capacity` of them. NVML offers
    /// this on Linux only.
    SystemGetTopologyGpuSet {
        cpu_number: u32,
        capacity: u32,
    },
    /// `nvmlUnitGetCount`. The number of units in the system.
    UnitGetCount,
    /// `nvmlEventSetCreate`. A new, empty set of events.
    EventSetCreate,
    /// `nvmlDeviceClearCpuAffinity`. Clears all affinity bindings of the
    /// calling thread.
    DeviceClearCpuAffinity {
        device: usize,
    },
    /// `nvmlDeviceGetAPIRestriction`. Whether the given API is restricted to
    /// root users.
    DeviceGetApiRestriction {
        device: usize,
        api: u32,
    },
    /// `nvmlDeviceGetApplicationsClock`. The clock (in MHz) that applications
    /// will run at, unless the device is overspecified.
    DeviceGetApplicationsClock {
        device: usize,
        clock_type: u32,
    },
    /// `nvmlDeviceGetAutoBoostedClocksEnabled`. The current and the default
    /// state of auto boosted clocks.
    DeviceGetAutoBoostedClocksEnabled {
        device: usize,
    },
    /// `nvmlDeviceGetBAR1MemoryInfo`. The total, free and used size of BAR1
    /// memory.
    DeviceGetBar1MemoryInfo {
        device: usize,
    },
    /// `nvmlDeviceGetBoardId`. The id of the board that this device is on.
    /// Devices with the same id are connected to the same PLX.
    DeviceGetBoardId {
        device: usize,
    },
    /// `nvmlDeviceGetBrand`. The brand of this device.
    DeviceGetBrand {
        device: usize,
    },
    /// `nvmlDeviceGetBridgeChipInfo`. The bridge chips on the board of this
    /// device. Only multi-GPU boards have any.
    DeviceGetBridgeChipInfo {
        device: usize,
    },
    /// `nvmlDeviceGetClockInfo`. The current speed (in MHz) of the given clock.
    DeviceGetClockInfo {
        device: usize,
        clock_type: u32,
    },
    /// `nvmlDeviceGetComputeRunningProcesses`. The processes with a compute
    /// context on this device, with room offered for `capacity` of them.
    DeviceGetComputeRunningProcesses {
        device: usize,
        capacity: u32,
    },
    /// `nvmlDeviceGetCpuAffinity`. The ideal CPU affinity of this device, as
    /// `cpu_set_size` bitmasks of 64 processors each.
    DeviceGetCpuAffinity {
        device: usize,
        cpu_set_size: u32,
    },
    /// `nvmlDeviceGetCurrPcieLinkGeneration`. The current PCIe link generation.
    DeviceGetCurrPcieLinkGeneration {
        device: usize,
    },
    /// `nvmlDeviceGetCurrPcieLinkWidth`. The current PCIe link width.
    DeviceGetCurrPcieLinkWidth {
        device: usize,
    },
    /// `nvmlDeviceGetDecoderUtilization`. The current utilization of the
    /// decoder, and the sampling period (in microseconds).
    DeviceGetDecoderUtilization {
        device: usize,
    },
    /// `nvmlDeviceGetDefaultApplicationsClock`. The applications clock (in
    /// MHz) that this device boots with, and goes back to when the clocks are
    /// reset.
    DeviceGetDefaultApplicationsClock {
        device: usize,
        clock_type: u32,
    },
    /// `nvmlDeviceGetDetailedEccErrors`. The ECC error counts by memory
    /// location. NVML has deprecated this query in favour of the memory error
    /// counter.
    DeviceGetDetailedEccErrors {
        device: usize,
        error_type: u32,
        counter_type: u32,
    },
    /// `nvmlDeviceGetDisplayActive`. Whether a display is initialized on this
    /// device, be a monitor attached or not.
    DeviceGetDisplayActive {
        device: usize,
    },
    /// `nvmlDeviceGetDisplayMode`. Whether a physical display is connected to
    /// one of the connectors of this device.
    DeviceGetDisplayMode {
        device: usize,
    },
    /// `nvmlDeviceGetDriverModel`. The current driver model and the pending
    /// one. NVML offers this on Windows only.
    DeviceGetDriverModel {
        device: usize,
    },
    /// `nvmlDeviceGetEccMode`. The current ECC mode and the pending one.
    DeviceGetEccMode {
        device: usize,
    },
    /// `nvmlDeviceGetEncoderUtilization`. The current utilization of the
    /// encoder, and the sampling period (in microseconds).
    DeviceGetEncoderUtilization {
        device: usize,
    },
    /// `nvmlDeviceGetEnforcedPowerLimit`. The power limit (in milliwatts) that
    /// the driver enforces after taking all limiters into account.
    DeviceGetEnforcedPowerLimit {
        device: usize,
    },
    /// `nvmlDeviceGetFanSpeed`. The intended speed of the fan of this device,
    /// in percent of its maximum.
    DeviceGetFanSpeed {
        device: usize,
    },
    /// `nvmlDeviceGetGpuOperationMode`. The current GPU operation mode and the
    /// pending one.
    DeviceGetGpuOperationMode {
        device: usize,
    },
    /// `nvmlDeviceGetGraphicsRunningProcesses`. The processes with a graphics
    /// context on this device, with room offered for `capacity` of them.
    DeviceGetGraphicsRunningProcesses {
        device: usize,
        capacity: u32,
    },
    /// `nvmlDeviceGetIndex`. The index of this device within NVML.
    DeviceGetIndex {
        device: usize,
    },
    /// `nvmlDeviceGetInforomConfigurationChecksum`. The checksum of the
    /// configuration stored in the infoROM of this device.
    DeviceGetInforomConfigurationChecksum {
        device: usize,
    },
    /// `nvmlDeviceGetInforomImageVersion`. The version of the infoROM image as
    /// a whole.
    DeviceGetInforomImageVersion {
        device: usize,
        length: u32,
    },
    /// `nvmlDeviceGetInforomVersion`. The version of the given object of the
    /// infoROM.
    DeviceGetInforomVersion {
        device: usize,
        object: u32,
        length: u32,
    },
    /// `nvmlDeviceGetMaxClockInfo`. The highest speed (in MHz) of the given
    /// clock.
    DeviceGetMaxClockInfo {
        device: usize,
        clock_type: u32,
    },
    /// `nvmlDeviceGetMaxPcieLinkGeneration`. The highest PCIe link generation
    /// possible with this device and system.
    DeviceGetMaxPcieLinkGeneration {
        device: usize,
    },
    /// `nvmlDeviceGetMaxPcieLinkWidth`. The largest PCIe link width possible
    /// with this device and system.
    DeviceGetMaxPcieLinkWidth {
        device: usize,
    },
    /// `nvmlDeviceGetMemoryErrorCounter`. The memory error counter for the
    /// given kind of error, kind of counter and memory location.
    DeviceGetMemoryErrorCounter {
        device: usize,
        error_type: u32,
        counter_type: u32,
        location: u32,
    },
    /// `nvmlDeviceGetMemoryInfo`. The used, free and total memory of this
    /// device, in bytes.
    DeviceGetMemoryInfo {
        device: usize,
    },
    /// `nvmlDeviceGetMinorNumber`. The minor number of this device: the number
    /// in the name of its device node. NVML offers this on Linux only.
    DeviceGetMinorNumber {
        device: usize,
    },
    /// `nvmlDeviceGetMultiGpuBoard`. Whether this device is on a board with
    /// several GPUs.
    DeviceGetMultiGpuBoard {
        device: usize,
    },
    /// `nvmlDeviceGetName`. The name of this device, such as "Tesla C2070".
    DeviceGetName {
        device: usize,
        length: u32,
    },
    /// `nvmlDeviceGetPciInfo_v2`. The PCI attributes of this device.
    DeviceGetPciInfo {
        device: usize,
    },
    /// `nvmlDeviceGetPcieReplayCounter`. The PCIe replay counter.
    DeviceGetPcieReplayCounter {
        device: usize,
    },
    /// `nvmlDeviceGetPcieThroughput`. The PCIe throughput (in KB/s) that the
    /// given counter measured over the last 20ms.
    DeviceGetPcieThroughput {
        device: usize,
        counter: u32,
    },
    /// `nvmlDeviceGetPerformanceState`. The current performance state of this
    /// device.
    DeviceGetPerformanceState {
        device: usize,
    },
    /// `nvmlDeviceGetPersistenceMode`. Whether persistence mode is enabled for
    /// this device. NVML offers this on Linux only.
    DeviceGetPersistenceMode {
        device: usize,
    },
    /// `nvmlDeviceGetPowerManagementDefaultLimit`. The default power
    /// management limit of this device, in milliwatts.
    DeviceGetPowerManagementDefaultLimit {
        device: usize,
    },
    /// `nvmlDeviceGetPowerManagementLimit`. The power management limit of this
    /// device, in milliwatts.
    DeviceGetPowerManagementLimit {
        device: usize,
    },
    /// `nvmlDeviceGetPowerManagementLimitConstraints`. The smallest and the
    /// largest power management limit that can be set, in milliwatts.
    DeviceGetPowerManagementLimitConstraints {
        device: usize,
    },
    /// `nvmlDeviceGetPowerManagementMode`. Whether the power management
    /// algorithm is active. NVML has deprecated this query.
    DeviceGetPowerManagementMode {
        device: usize,
    },
    /// `nvmlDeviceGetPowerState`. The current performance state of this
    /// device. NVML has deprecated this query in favour of the performance
    /// state.
    DeviceGetPowerState {
        device: usize,
    },
    /// `nvmlDeviceGetPowerUsage`. The power that this GPU and its circuitry
    /// draw, in milliwatts.
    DeviceGetPowerUsage {
        device: usize,
    },
    /// `nvmlDeviceGetRetiredPages`. The addresses of the pages that were
    /// retired for the given cause, those pending retirement included, with
    /// room offered for `capacity` of them.
    DeviceGetRetiredPages {
        device: usize,
        cause: u32,
        capacity: u32,
    },
    /// `nvmlDeviceGetRetiredPagesPendingStatus`. Whether pages are pending
    /// retirement (a reboot retires them fully).
    DeviceGetRetiredPagesPendingStatus {
        device: usize,
    },
    /// `nvmlDeviceGetSerial`. The serial number of the board of this device.
    DeviceGetSerial {
        device: usize,
        length: u32,
    },
    /// `nvmlDeviceGetSupportedGraphicsClocks`. The graphics clocks (in MHz)
    /// that can be set together with the given memory clock, with room offered
    /// for `capacity` of them.
    DeviceGetSupportedGraphicsClocks {
        device: usize,
        memory_clock: u32,
        capacity: u32,
    },
    /// `nvmlDeviceGetSupportedMemoryClocks`. The memory clocks (in MHz) that
    /// can be set, with room offered for `capacity` of them.
    DeviceGetSupportedMemoryClocks {
        device: usize,
        capacity: u32,
    },
    /// `nvmlDeviceGetTemperature`. The current reading of the given sensor, in
    /// degrees Celsius.
    DeviceGetTemperature {
        device: usize,
        sensor: u32,
    },
    /// `nvmlDeviceGetTemperatureThreshold`. The given temperature threshold of
    /// this device, in degrees Celsius.
    DeviceGetTemperatureThreshold {
        device: usize,
        threshold_type: u32,
    },
    /// `nvmlDeviceGetTopologyCommonAncestor`. The closest level at which this
    /// device and the other one are connected. NVML offers this on Linux only.
    DeviceGetTopologyCommonAncestor {
        device: usize,
        other: usize,
    },
    /// `nvmlDeviceGetTopologyNearestGpus`. The devices that are nearest to
    /// this one at the given level, with room offered for `capacity` of them.
    /// NVML offers this on Linux only.
    DeviceGetTopologyNearestGpus {
        device: usize,
        level: u32,
        capacity: u32,
    },
    /// `nvmlDeviceGetTotalEccErrors`. The total of the ECC errors of the given
    /// kind on the given counter.
    DeviceGetTotalEccErrors {
        device: usize,
        error_type: u32,
        counter_type: u32,
    },
    /// `nvmlDeviceGetUUID`. The UUID of this device: globally unique and never
    /// changing, five parts in hexadecimal.
    DeviceGetUuid {
        device: usize,
        length: u32,
    },
    /// `nvmlDeviceGetUtilizationRates`. The current utilization of the major
    /// subsystems of this device.
    DeviceGetUtilizationRates {
        device: usize,
    },
    /// `nvmlDeviceGetVbiosVersion`. The VBIOS version of this device.
    DeviceGetVbiosVersion {
        device: usize,
        length: u32,
    },
    /// `nvmlDeviceGetViolationStatus`. For how long this device was throttled
    /// below the requested clocks by the given policy.
    DeviceGetViolationStatus {
        device: usize,
        perf_policy: u32,
    },
    /// `nvmlDeviceOnSameBoard`. Whether this device and the other one are on
    /// the same physical board.
    DeviceOnSameBoard {
        device: usize,
        other: usize,
    },
    /// `nvmlDeviceResetApplicationsClocks`. Resets the applications clocks to
    /// their defaults.
    DeviceResetApplicationsClocks {
        device: usize,
    },
    /// `nvmlDeviceSetAutoBoostedClocksEnabled`. Enables or disables auto
    /// boosted clocks for now.
    DeviceSetAutoBoostedClocksEnabled {
        device: usize,
        enabled: u32,
    },
    /// `nvmlDeviceSetCpuAffinity`. Binds the calling thread to the processors
    /// that are ideal for this device. NVML offers this on Linux only.
    DeviceSetCpuAffinity {
        device: usize,
    },
    /// `nvmlDeviceSetDefaultAutoBoostedClocksEnabled`. Enables or disables
    /// auto boosted clocks by default. The flags that NVML takes with it are
    /// always 0.
    DeviceSetDefaultAutoBoostedClocksEnabled {
        device: usize,
        enabled: u32,
        flags: u32,
    },
    /// `nvmlDeviceValidateInforom`. Reads the infoROM from the flash of this
    /// device and checks its checksum.
    DeviceValidateInforom {
        device: usize,
    },
    /// `nvmlDeviceClearAccountingPids`. Clears the accounting information of
    /// all processes that have ended.
    DeviceClearAccountingPids {
        device: usize,
    },
    /// `nvmlDeviceGetAccountingBufferSize`. How many processes the circular
    /// buffer of accounting pids can hold.
    DeviceGetAccountingBufferSize {
        device: usize,
    },
    /// `nvmlDeviceGetAccountingMode`. Whether per-process accounting is
    /// enabled.
    DeviceGetAccountingMode {
        device: usize,
    },
    /// `nvmlDeviceGetAccountingPids`. The ids of the processes that accounting
    /// statistics can be asked for, with room offered for `capacity` of them.
    DeviceGetAccountingPids {
        device: usize,
        capacity: u32,
    },
    /// `nvmlDeviceGetAccountingStats`. The accounting statistics of the given
    /// process.
    DeviceGetAccountingStats {
        device: usize,
        pid: u32,
    },
    /// `nvmlDeviceSetAccountingMode`. Enables or disables per-process
    /// accounting.
    DeviceSetAccountingMode {
        device: usize,
        mode: u32,
    },
    /// `nvmlDeviceClearEccErrorCounts`. Clears the ECC error counts of the
    /// given counter.
    DeviceClearEccErrorCounts {
        device: usize,
        counter_type: u32,
    },
    /// `nvmlDeviceSetAPIRestriction`. Restricts the given API to root users,
    /// or opens it to all.
    DeviceSetApiRestriction {
        device: usize,
        api_type: u32,
        restricted: u32,
    },
    /// `nvmlDeviceSetApplicationsClocks`. Sets the clocks (in MHz) that
    /// applications will lock to.
    DeviceSetApplicationsClocks {
        device: usize,
        memory_clock: u32,
        graphics_clock: u32,
    },
    /// `nvmlDeviceSetComputeMode`. Sets the compute mode of this device.
    DeviceSetComputeMode {
        device: usize,
        mode: u32,
    },
    /// `nvmlDeviceSetDriverModel`. Sets the driver model of this device, for
    /// after the next reboot. The flags that NVML takes with it are always 0.
    /// NVML offers this on Windows only.
    DeviceSetDriverModel {
        device: usize,
        model: u32,
        flags: u32,
    },
    /// `nvmlDeviceSetEccMode`. Enables or disables ECC mode, for after the
    /// next reboot.
    DeviceSetEccMode {
        device: usize,
        ecc: u32,
    },
    /// `nvmlDeviceSetGpuOperationMode`. Sets the GPU operation mode of this
    /// device.
    DeviceSetGpuOperationMode {
        device: usize,
        mode: u32,
    },
    /// `nvmlDeviceSetPersistenceMode`. Enables or disables persistence mode.
    /// NVML offers this on Linux only.
    DeviceSetPersistenceMode {
        device: usize,
        mode: u32,
    },
    /// `nvmlDeviceSetPowerManagementLimit`. Sets the power management limit of
    /// this device, in milliwatts.
    DeviceSetPowerManagementLimit {
        device: usize,
        limit: u32,
    },
    /// `nvmlDeviceGetSupportedEventTypes`. The event types that this device
    /// supports.
    DeviceGetSupportedEventTypes {
        device: usize,
    },
    /// `nvmlDeviceRegisterEvents`. Starts recording the given event types of
    /// the device
    /// into the given event set.
    DeviceRegisterEvents {
        device: usize,
        event_types: u64,
        set: usize,
    },
    /// `nvmlEventSetWait`. Waits for the next event of the set, for at most
    /// the given time.
    EventSetWait {
        set: usize,
        timeout_ms: u32,
    },
    /// `nvmlEventSetFree`. Destroys the event set and gives its storage back.
    EventSetFree {
        set: usize,
    },
    /// `nvmlUnitGetFanSpeedInfo`. The fans of a unit.
    UnitGetFanSpeedInfo {
        unit: usize,
    },
    /// `nvmlUnitGetPsuInfo`. The power supply readings of a unit.
    UnitGetPsuInfo {
        unit: usize,
    },
    /// `nvmlUnitGetUnitInfo`. The static information on a unit.
    UnitGetUnitInfo {
        unit: usize,
    },
    /// `nvmlUnitGetDevices`. The devices that are attached to a unit.
    UnitGetDevices {
        unit: usize,
        capacity: u32,
    },
    /// `nvmlUnitSetLedState`. Sets the color of the LED of a unit.
    UnitSetLedState {
        unit: usize,
        color: u32,
    },
}

} // verus!
