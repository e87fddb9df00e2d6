//! The values that queries hand back, each built once from what NVML wrote
//! and owning all of its content.
//!
//! A value that holds text or a list has a view, in which the text is a
//! sequence of characters and the list a sequence; the contracts speak of
//! the view.

use vstd::prelude::*;
use crate::buffers::{decode_text, filled, filled_len, text_of, view_result};
use crate::device::Device;
use crate::enum_wrappers::{BridgeChip, FanState};
use crate::enums::{FirmwareVersion, UsedGpuMemory};
use crate::errors::{Error, ErrorKind};
use crate::native;
use crate::native::{
    NativeAccountingStats, NativeBar1Memory, NativeBridgeChipHierarchy, NativeBridgeChipInfo,
    NativeEccErrorCounts, NativeEventData, NativeHwbcEntry, NativeMemory, NativePciInfo,
    NativeProcessInfo, NativePsuInfo, NativeUnitFanInfo, NativeUnitFanSpeeds, NativeUnitInfo,
    NativeUtilization, NativeViolationTime,
};
use crate::NVML;

verus! {

/// A 32-bit field of NVML that may hold the not-available sentinel.
pub open spec fn available_u32(value: u32) -> Option<u32> {
    if value == native::NVML_VALUE_NOT_AVAILABLE_U32 {
        None
    } else {
        Some(value)
    }
}

/// A 64-bit field of NVML that may hold the not-available sentinel.
pub open spec fn available_u64(value: u64) -> Option<u64> {
    if value == native::NVML_VALUE_NOT_AVAILABLE_U64 {
        None
    } else {
        Some(value)
    }
}

/// PCI information about a device.
#[derive(Debug, PartialEq, Eq)]
pub struct PciInfo {
    /// The bus on which the device resides, 0 to 0xff.
    pub bus: u32,
    /// The PCI identifier.
    pub bus_id: String,
    /// The device's id on the bus, 0 to 31.
    pub device: u32,
    /// The PCI domain on which the device's bus resides, 0 to 0xffff.
    pub domain: u32,
    /// The combined 16-bit device id and 16-bit vendor id.
    pub pci_device_id: u32,
    /// The 32-bit sub system device id.
    pub pci_sub_system_id: u32,
}

/// `PciInfo` with its text as a sequence of characters.
pub struct PciInfoView {
    pub bus: u32,
    pub bus_id: Seq<char>,
    pub device: u32,
    pub domain: u32,
    pub pci_device_id: u32,
    pub pci_sub_system_id: u32,
}

impl View for PciInfo {
    type V = PciInfoView;

    open spec fn view(&self) -> PciInfoView {
        PciInfoView {
            bus: self.bus,
            bus_id: self.bus_id@,
            device: self.device,
            domain: self.domain,
            pci_device_id: self.pci_device_id,
            pci_sub_system_id: self.pci_sub_system_id,
        }
    }
}

impl PciInfo {
    /// What the PCI information that NVML wrote says: its numbers, and its
    /// bus id as text; `Utf8DecodeError` where the bus id is no valid text.
    pub open spec fn of(native: NativePciInfo) -> Result<PciInfoView, Error> {
        match text_of(native.bus_id@) {
            Ok(bus_id) => Ok(
                PciInfoView {
                    bus: native.bus,
                    bus_id,
                    device: native.device,
                    domain: native.domain,
                    pci_device_id: native.pci_device_id,
                    pci_sub_system_id: native.pci_sub_system_id,
                },
            ),
            Err(error) => Err(error),
        }
    }

    /// Builds the value from what NVML wrote.
    pub fn try_from(struct_: NativePciInfo) -> (result: Result<PciInfo, Error>)
        ensures
            view_result(result) == PciInfo::of(struct_),
    {
        match decode_text(struct_.bus_id.as_slice()) {
            Ok(bus_id) => Ok(
                PciInfo {
                    bus: struct_.bus,
                    bus_id,
                    device: struct_.device,
                    domain: struct_.domain,
                    pci_device_id: struct_.pci_device_id,
                    pci_sub_system_id: struct_.pci_sub_system_id,
                },
            ),
            Err(error) => Err(error),
        }
    }
}

/// BAR1 memory allocation information for a device (in bytes).
#[derive(Clone, Copy, Debug, PartialEq, Eq)]
pub struct BAR1MemoryInfo {
    /// Unallocated.
    pub free: u64,
    /// Total memory.
    pub total: u64,
    /// Allocated.
    pub used: u64,
}

impl BAR1MemoryInfo {
    /// What the BAR1 memory information that NVML wrote says.
    pub open spec fn of(native: NativeBar1Memory) -> BAR1MemoryInfo {
        BAR1MemoryInfo { free: native.bar1_free, total: native.bar1_total, used: native.bar1_used }
    }

    /// Builds the value from what NVML wrote.
    pub fn from(struct_: NativeBar1Memory) -> (info: BAR1MemoryInfo)
        ensures
            info == BAR1MemoryInfo::of(struct_),
    {
        BAR1MemoryInfo {
            free: struct_.bar1_free,
            total: struct_.bar1_total,
            used: struct_.bar1_used,
        }
    }
}

/// Information about a bridge chip.
#[derive(Clone, Copy, Debug, PartialEq, Eq)]
pub struct BridgeChipInfo {
    /// Firmware version of the chip.
    pub fw_version: FirmwareVersion,
    /// Type of the chip.
    pub chip_type: BridgeChip,
}

impl BridgeChipInfo {
    /// What the bridge chip entry that NVML wrote says;
    /// `UnrecognizedEnumVariant` where its type is none that is known.
    pub open spec fn of(native: NativeBridgeChipInfo) -> Result<BridgeChipInfo, Error> {
        match BridgeChip::from_native(native.chip_type) {
            Some(chip_type) => Ok(
                BridgeChipInfo { fw_version: FirmwareVersion::of(native.fw_version), chip_type },
            ),
            None => Err(Error::of(ErrorKind::UnrecognizedEnumVariant)),
        }
    }

    /// Builds the value from what NVML wrote.
    pub fn try_from(struct_: NativeBridgeChipInfo) -> (result: Result<BridgeChipInfo, Error>)
        ensures
            result == BridgeChipInfo::of(struct_),
    {
        let fw_version = FirmwareVersion::from(struct_.fw_version);
        match BridgeChip::try_from(struct_.chip_type) {
            Ok(chip_type) => Ok(BridgeChipInfo { fw_version, chip_type }),
            Err(error) => Err(error),
        }
    }
}

/// The complete hierarchy of the bridge chips within a board.
///
/// The immediate bridge is at index 0 of `chips_hierarchy`, its parent at
/// index 1, and so forth.
#[derive(Debug, PartialEq, Eq)]
pub struct BridgeChipHierarchy {
    /// Hierarchy of bridge chips on the board.
    pub chips_hierarchy: Vec<BridgeChipInfo>,
    /// Number of bridge chips on the board.
    pub chip_count: u8,
}

/// `BridgeChipHierarchy` with its list as a sequence.
pub struct BridgeChipHierarchyView {
    pub chips_hierarchy: Seq<BridgeChipInfo>,
    pub chip_count: u8,
}

impl View for BridgeChipHierarchy {
    type V = BridgeChipHierarchyView;

    open spec fn view(&self) -> BridgeChipHierarchyView {
        BridgeChipHierarchyView {
            chips_hierarchy: self.chips_hierarchy@,
            chip_count: self.chip_count,
        }
    }
}

impl BridgeChipHierarchy {
    /// The entries of the hierarchy that NVML wrote: as many as it counted.
    pub open spec fn counted(native: NativeBridgeChipHierarchy) -> Seq<NativeBridgeChipInfo> {
        filled(native.bridge_count as u32, native.bridge_chip_info@)
    }

    /// What the hierarchy that NVML wrote says: its counted entries, in
    /// their order; `UnrecognizedEnumVariant` where one of them has a type
    /// that is not known. Entries after the count are not looked at.
    pub open spec fn of(native: NativeBridgeChipHierarchy) -> Result<
        BridgeChipHierarchyView,
        Error,
    > {
        let entries = BridgeChipHierarchy::counted(native);
        if forall|i: int|
            0 <= i < entries.len() ==> (#[trigger] BridgeChipInfo::of(entries[i])) is Ok {
            Ok(
                BridgeChipHierarchyView {
                    chips_hierarchy: Seq::new(
                        entries.len(),
                        |i: int| BridgeChipInfo::of(entries[i])->Ok_0,
                    ),
                    chip_count: native.bridge_count,
                },
            )
        } else {
            Err(Error::of(ErrorKind::UnrecognizedEnumVariant))
        }
    }

    /// A hierarchy that was read holds as many chips as NVML counted, and
    /// never more than the 128 that the struct has room for.
    pub proof fn lemma_holds_the_counted(native: NativeBridgeChipHierarchy)
        requires
            BridgeChipHierarchy::of(native) is Ok,
        ensures
            BridgeChipHierarchy::of(native)->Ok_0.chip_count == native.bridge_count,
            native.bridge_count <= 128 ==> BridgeChipHierarchy::of(
                native,
            )->Ok_0.chips_hierarchy.len() == native.bridge_count,
            native.bridge_count > 128 ==> BridgeChipHierarchy::of(
                native,
            )->Ok_0.chips_hierarchy.len() == 128,
    {
    }

    /// Builds the value from what NVML wrote.
    pub fn try_from(struct_: NativeBridgeChipHierarchy) -> (result: Result<
        BridgeChipHierarchy,
        Error,
    >)
        ensures
            view_result(result) == BridgeChipHierarchy::of(struct_),
    {
        let ghost entries = BridgeChipHierarchy::counted(struct_);
        let all = struct_.bridge_chip_info.as_slice();
        let n: usize = filled_len(struct_.bridge_count as u32, all.len());
        let mut hierarchy: Vec<BridgeChipInfo> = Vec::new();
        let mut i: usize = 0;
        while i < n
            invariant
                i <= n,
                n == entries.len(),
                all@ == struct_.bridge_chip_info@,
                entries == BridgeChipHierarchy::counted(struct_),
                hierarchy@.len() == i,
                forall|j: int| 0 <= j < i ==> BridgeChipInfo::of(entries[j]) == Ok::<
                    BridgeChipInfo,
                    Error,
                >(#[trigger] hierarchy@[j]),
            decreases n - i,
        {
            assert(entries[i as int] == all@[i as int]);
            match BridgeChipInfo::try_from(all[i]) {
                Ok(info) => {
                    hierarchy.push(info);
                },
                Err(error) => {
                    assert(!(BridgeChipInfo::of(entries[i as int]) is Ok));
                    return Err(error);
                },
            }
            i += 1;
        }
        assert forall|j: int| 0 <= j < entries.len() implies (#[trigger] BridgeChipInfo::of(
            entries[j],
        )) is Ok by {
            assert(BridgeChipInfo::of(entries[j]) == Ok::<BridgeChipInfo, Error>(hierarchy@[j]));
        }
        assert(hierarchy@ =~= Seq::new(
            entries.len(),
            |i: int| BridgeChipInfo::of(entries[i])->Ok_0,
        ));
        Ok(BridgeChipHierarchy { chips_hierarchy: hierarchy, chip_count: struct_.bridge_count })
    }
}

/// Information about a process running on a device.
#[derive(Clone, Copy, Debug, PartialEq, Eq)]
pub struct ProcessInfo {
    /// Process id.
    pub pid: u32,
    /// Amount of used GPU memory in bytes.
    pub used_gpu_memory: UsedGpuMemory,
}

impl ProcessInfo {
    /// What the process entry that NVML wrote says.
    pub open spec fn of(native: NativeProcessInfo) -> ProcessInfo {
        ProcessInfo { pid: native.pid, used_gpu_memory: UsedGpuMemory::of(native.used_gpu_memory) }
    }

    /// Builds the value from what NVML wrote.
    pub fn from(struct_: NativeProcessInfo) -> (info: ProcessInfo)
        ensures
            info == ProcessInfo::of(struct_),
    {
        ProcessInfo {
            pid: struct_.pid,
            used_gpu_memory: UsedGpuMemory::from(struct_.used_gpu_memory),
        }
    }
}

/// The processes that a call wrote which reported `count` of them: its
/// first `count` entries, in their order.
pub open spec fn processes_of(count: u32, entries: Seq<NativeProcessInfo>) -> Seq<ProcessInfo> {
    filled(count, entries).map_values(|entry: NativeProcessInfo| ProcessInfo::of(entry))
}

/// Builds the list of the processes that a call wrote which reported `count`
/// of them.
pub fn processes_from(count: u32, entries: &[NativeProcessInfo]) -> (processes: Vec<ProcessInfo>)
    ensures
        processes@ == processes_of(count, entries@),
{
    let n: usize = filled_len(count, entries.len());
    let mut processes: Vec<ProcessInfo> = Vec::new();
    let mut i: usize = 0;
    while i < n
        invariant
            i <= n,
            n == filled(count, entries@).len(),
            n <= entries@.len(),
            processes@.len() == i,
            forall|j: int| 0 <= j < i ==> #[trigger] processes@[j] == ProcessInfo::of(entries@[j]),
        decreases n - i,
    {
        processes.push(ProcessInfo::from(entries[i]));
        i += 1;
    }
    assert(processes@ =~= processes_of(count, entries@));
    processes
}

/// Detailed ECC error counts for a device.
#[derive(Clone, Copy, Debug, PartialEq, Eq)]
pub struct EccErrorCounts {
    /// Device memory errors.
    pub device_memory: u64,
    /// L1 cache errors.
    pub l1_cache: u64,
    /// L2 cache errors.
    pub l2_cache: u64,
    /// Register file errors.
    pub register_file: u64,
}

impl EccErrorCounts {
    /// What the error counts that NVML wrote say.
    pub open spec fn of(native: NativeEccErrorCounts) -> EccErrorCounts {
        EccErrorCounts {
            device_memory: native.device_memory,
            l1_cache: native.l1_cache,
            l2_cache: native.l2_cache,
            register_file: native.register_file,
        }
    }

    /// Builds the value from what NVML wrote.
    pub fn from(struct_: NativeEccErrorCounts) -> (counts: EccErrorCounts)
        ensures
            counts == EccErrorCounts::of(struct_),
    {
        EccErrorCounts {
            device_memory: struct_.device_memory,
            l1_cache: struct_.l1_cache,
            l2_cache: struct_.l2_cache,
            register_file: struct_.register_file,
        }
    }
}

/// Memory allocation information for a device (in bytes).
#[derive(Clone, Copy, Debug, PartialEq, Eq)]
pub struct MemoryInfo {
    /// Unallocated FB memory.
    pub free: u64,
    /// Total installed FB memory.
    pub total: u64,
    /// Allocated FB memory. The driver always sets a small amount aside for
    /// bookkeeping.
    pub used: u64,
}

impl MemoryInfo {
    /// What the memory information that NVML wrote says.
    pub open spec fn of(native: NativeMemory) -> MemoryInfo {
        MemoryInfo { free: native.free, total: native.total, used: native.used }
    }

    /// Builds the value from what NVML wrote.
    pub fn from(struct_: NativeMemory) -> (info: MemoryInfo)
        ensures
            info == MemoryInfo::of(struct_),
    {
        MemoryInfo { free: struct_.free, total: struct_.total, used: struct_.used }
    }
}

/// Utilization information for a device. A sample period is between 1 second
/// and 1/6 second, depending on the product.
#[derive(Clone, Copy, Debug, PartialEq, Eq)]
pub struct Utilization {
    /// Percent of time over the past sample period during which one or more
    /// kernels was executing on the GPU.
    pub gpu: u32,
    /// Percent of time over the past sample period during which device memory
    /// was being read or written.
    pub memory: u32,
}

impl Utilization {
    /// What the utilization that NVML wrote says.
    pub open spec fn of(native: NativeUtilization) -> Utilization {
        Utilization { gpu: native.gpu, memory: native.memory }
    }

    /// Builds the value from what NVML wrote.
    pub fn from(struct_: NativeUtilization) -> (utilization: Utilization)
        ensures
            utilization == Utilization::of(struct_),
    {
        Utilization { gpu: struct_.gpu, memory: struct_.memory }
    }
}

/// Performance policy violation status data.
#[derive(Clone, Copy, Debug, PartialEq, Eq)]
pub struct ViolationTime {
    /// CPU timestamp in microseconds.
    pub reference_time: u64,
    /// Violation time in nanoseconds.
    pub violation_time: u64,
}

impl ViolationTime {
    /// What the violation times that NVML wrote say.
    pub open spec fn of(native: NativeViolationTime) -> ViolationTime {
        ViolationTime {
            reference_time: native.reference_time,
            violation_time: native.violation_time,
        }
    }

    /// Builds the value from what NVML wrote.
    pub fn from(struct_: NativeViolationTime) -> (time: ViolationTime)
        ensures
            time == ViolationTime::of(struct_),
    {
        ViolationTime {
            reference_time: struct_.reference_time,
            violation_time: struct_.violation_time,
        }
    }
}

/// Description of an HWBC entry.
#[derive(Debug, PartialEq, Eq)]
pub struct HwbcEntry {
    /// Id of the entry.
    pub id: u32,
    /// Firmware version of the entry.
    pub firmware_version: String,
}

/// `HwbcEntry` with its text as a sequence of characters.
pub struct HwbcEntryView {
    pub id: u32,
    pub firmware_version: Seq<char>,
}

impl View for HwbcEntry {
    type V = HwbcEntryView;

    open spec fn view(&self) -> HwbcEntryView {
        HwbcEntryView { id: self.id, firmware_version: self.firmware_version@ }
    }
}

impl HwbcEntry {
    /// What the HWBC entry that NVML wrote says; `Utf8DecodeError` where its
    /// firmware version is no valid text.
    pub open spec fn of(native: NativeHwbcEntry) -> Result<HwbcEntryView, Error> {
        match text_of(native.firmware_version@) {
            Ok(firmware_version) => Ok(HwbcEntryView { id: native.hwbc_id, firmware_version }),
            Err(error) => Err(error),
        }
    }

    /// Builds the value from what NVML wrote.
    pub fn try_from(struct_: NativeHwbcEntry) -> (result: Result<HwbcEntry, Error>)
        ensures
            view_result(result) == HwbcEntry::of(struct_),
    {
        match decode_text(struct_.firmware_version.as_slice()) {
            Ok(firmware_version) => Ok(HwbcEntry { id: struct_.hwbc_id, firmware_version }),
            Err(error) => Err(error),
        }
    }
}

/// Fan information reading for a single fan in an S-class unit.
#[derive(Clone, Copy, Debug, PartialEq, Eq)]
pub struct FanInfo {
    /// Fan speed (RPM).
    pub speed: u32,
    /// Whether the fan is working properly.
    pub state: FanState,
}

impl FanInfo {
    /// What the fan entry that NVML wrote says; `UnrecognizedEnumVariant`
    /// where its state is none that is known.
    pub open spec fn of(native: NativeUnitFanInfo) -> Result<FanInfo, Error> {
        match FanState::from_native(native.state) {
            Some(state) => Ok(FanInfo { speed: native.speed, state }),
            None => Err(Error::of(ErrorKind::UnrecognizedEnumVariant)),
        }
    }

    /// Builds the value from what NVML wrote.
    pub fn try_from(struct_: NativeUnitFanInfo) -> (result: Result<FanInfo, Error>)
        ensures
            result == FanInfo::of(struct_),
    {
        match FanState::try_from(struct_.state) {
            Ok(state) => Ok(FanInfo { speed: struct_.speed, state }),
            Err(error) => Err(error),
        }
    }
}

/// Fan information readings for an entire S-class unit.
#[derive(Debug, PartialEq, Eq)]
pub struct UnitFansInfo {
    /// Number of fans in the unit.
    pub count: u32,
    /// Fan data for each fan.
    pub fans: Vec<FanInfo>,
}

/// `UnitFansInfo` with its list as a sequence.
pub struct UnitFansInfoView {
    pub count: u32,
    pub fans: Seq<FanInfo>,
}

impl View for UnitFansInfo {
    type V = UnitFansInfoView;

    open spec fn view(&self) -> UnitFansInfoView {
        UnitFansInfoView { count: self.count, fans: self.fans@ }
    }
}

impl UnitFansInfo {
    /// The fan entries that NVML wrote: as many as it counted.
    pub open spec fn counted(native: NativeUnitFanSpeeds) -> Seq<NativeUnitFanInfo> {
        filled(native.count, native.fans@)
    }

    /// What the fan readings that NVML wrote say: the counted entries, in
    /// their order; `UnrecognizedEnumVariant` where one of them has a state
    /// that is not known. Entries after the count are not looked at.
    pub open spec fn of(native: NativeUnitFanSpeeds) -> Result<UnitFansInfoView, Error> {
        let entries = UnitFansInfo::counted(native);
        if forall|i: int| 0 <= i < entries.len() ==> (#[trigger] FanInfo::of(entries[i])) is Ok {
            Ok(
                UnitFansInfoView {
                    count: native.count,
                    fans: Seq::new(entries.len(), |i: int| FanInfo::of(entries[i])->Ok_0),
                },
            )
        } else {
            Err(Error::of(ErrorKind::UnrecognizedEnumVariant))
        }
    }

    /// Fan readings that were read hold as many fans as NVML counted, and
    /// never more than the 24 that the struct has room for.
    pub proof fn lemma_holds_the_counted(native: NativeUnitFanSpeeds)
        requires
            UnitFansInfo::of(native) is Ok,
        ensures
            UnitFansInfo::of(native)->Ok_0.count == native.count,
            native.count <= 24 ==> UnitFansInfo::of(native)->Ok_0.fans.len() == native.count,
            native.count > 24 ==> UnitFansInfo::of(native)->Ok_0.fans.len() == 24,
    {
    }

    /// Builds the value from what NVML wrote.
    pub fn try_from(struct_: NativeUnitFanSpeeds) -> (result: Result<UnitFansInfo, Error>)
        ensures
            view_result(result) == UnitFansInfo::of(struct_),
    {
        let ghost entries = UnitFansInfo::counted(struct_);
        let all = struct_.fans.as_slice();
        let n: usize = filled_len(struct_.count, all.len());
        let mut fans: Vec<FanInfo> = Vec::new();
        let mut i: usize = 0;
        while i < n
            invariant
                i <= n,
                n == entries.len(),
                all@ == struct_.fans@,
                entries == UnitFansInfo::counted(struct_),
                fans@.len() == i,
                forall|j: int| 0 <= j < i ==> FanInfo::of(entries[j]) == Ok::<FanInfo, Error>(
                    #[trigger] fans@[j],
                ),
            decreases n - i,
        {
            assert(entries[i as int] == all@[i as int]);
            match FanInfo::try_from(all[i]) {
                Ok(info) => {
                    fans.push(info);
                },
                Err(error) => {
                    assert(!(FanInfo::of(entries[i as int]) is Ok));
                    return Err(error);
                },
            }
            i += 1;
        }
        assert forall|j: int| 0 <= j < entries.len() implies (#[trigger] FanInfo::of(
            entries[j],
        )) is Ok by {
            assert(FanInfo::of(entries[j]) == Ok::<FanInfo, Error>(fans@[j]));
        }
        assert(fans@ =~= Seq::new(entries.len(), |i: int| FanInfo::of(entries[i])->Ok_0));
        Ok(UnitFansInfo { count: struct_.count, fans })
    }
}

/// Power usage information for an S-class unit.
///
/// The state is text for people: "Normal", or "Abnormal" with one or more
/// causes.
#[derive(Debug, PartialEq, Eq)]
pub struct UnitPsuInfo {
    /// PSU current (in A).
    pub current: u32,
    /// PSU power draw (in W).
    pub power_draw: u32,
    /// Description of the PSU state.
    pub state: String,
    /// PSU voltage (in V).
    pub voltage: u32,
}

/// `UnitPsuInfo` with its text as a sequence of characters.
pub struct UnitPsuInfoView {
    pub current: u32,
    pub power_draw: u32,
    pub state: Seq<char>,
    pub voltage: u32,
}

impl View for UnitPsuInfo {
    type V = UnitPsuInfoView;

    open spec fn view(&self) -> UnitPsuInfoView {
        UnitPsuInfoView {
            current: self.current,
            power_draw: self.power_draw,
            state: self.state@,
            voltage: self.voltage,
        }
    }
}

impl UnitPsuInfo {
    /// What the power supply readings that NVML wrote say; `Utf8DecodeError`
    /// where the state is no valid text.
    pub open spec fn of(native: NativePsuInfo) -> Result<UnitPsuInfoView, Error> {
        match text_of(native.state@) {
            Ok(state) => Ok(
                UnitPsuInfoView {
                    current: native.current,
                    power_draw: native.power,
                    state,
                    voltage: native.voltage,
                },
            ),
            Err(error) => Err(error),
        }
    }

    /// Builds the value from what NVML wrote.
    pub fn try_from(struct_: NativePsuInfo) -> (result: Result<UnitPsuInfo, Error>)
        ensures
            view_result(result) == UnitPsuInfo::of(struct_),
    {
        match decode_text(struct_.state.as_slice()) {
            Ok(state) => Ok(
                UnitPsuInfo {
                    current: struct_.current,
                    power_draw: struct_.power,
                    state,
                    voltage: struct_.voltage,
                },
            ),
            Err(error) => Err(error),
        }
    }
}

/// Static S-class unit info.
#[derive(Debug, PartialEq, Eq)]
pub struct UnitInfo {
    /// Firmware version.
    pub firmware_version: String,
    /// Product identifier.
    pub id: String,
    /// Product name.
    pub name: String,
    /// Product serial number.
    pub serial: String,
}

/// `UnitInfo` with its texts as sequences of characters.
pub struct UnitInfoView {
    pub firmware_version: Seq<char>,
    pub id: Seq<char>,
    pub name: Seq<char>,
    pub serial: Seq<char>,
}

impl View for UnitInfo {
    type V = UnitInfoView;

    open spec fn view(&self) -> UnitInfoView {
        UnitInfoView {
            firmware_version: self.firmware_version@,
            id: self.id@,
            name: self.name@,
            serial: self.serial@,
        }
    }
}

impl UnitInfo {
    /// What the unit information that NVML wrote says; `Utf8DecodeError`
    /// where one of its four fields is no valid text.
    pub open spec fn of(native: NativeUnitInfo) -> Result<UnitInfoView, Error> {
        if text_of(native.firmware_version@) is Ok && text_of(native.id@) is Ok && text_of(
            native.name@,
        ) is Ok && text_of(native.serial@) is Ok {
            Ok(
                UnitInfoView {
                    firmware_version: text_of(native.firmware_version@)->Ok_0,
                    id: text_of(native.id@)->Ok_0,
                    name: text_of(native.name@)->Ok_0,
                    serial: text_of(native.serial@)->Ok_0,
                },
            )
        } else {
            Err(Error::of(ErrorKind::Utf8DecodeError))
        }
    }

    /// Builds the value from what NVML wrote.
    pub fn try_from(struct_: NativeUnitInfo) -> (result: Result<UnitInfo, Error>)
        ensures
            view_result(result) == UnitInfo::of(struct_),
    {
        let firmware_version = match decode_text(struct_.firmware_version.as_slice()) {
            Ok(text) => text,
            Err(error) => {
                return Err(error);
            },
        };
        let id = match decode_text(struct_.id.as_slice()) {
            Ok(text) => text,
            Err(error) => {
                return Err(error);
            },
        };
        let name = match decode_text(struct_.name.as_slice()) {
            Ok(text) => text,
            Err(error) => {
                return Err(error);
            },
        };
        let serial = match decode_text(struct_.serial.as_slice()) {
            Ok(text) => text,
            Err(error) => {
                return Err(error);
            },
        };
        Ok(UnitInfo { firmware_version, id, name, serial })
    }
}

/// Accounting statistics for a process.
#[derive(Clone, Copy, Debug, PartialEq, Eq)]
pub struct AccountingStats {
    /// Percent of time over the process's lifetime during which one or more
    /// kernels was executing on the GPU. `None` where the device does not
    /// report utilization.
    pub gpu_utilization: Option<u32>,
    /// Whether the process is running.
    pub is_running: bool,
    /// Most memory in bytes that the process ever had allocated. `None`
    /// where the device does not report the memory of a process.
    pub max_memory_usage: Option<u64>,
    /// Percent of time over the process's lifetime during which device memory
    /// was being read or written. `None` where the device does not report
    /// utilization.
    pub memory_utilization: Option<u32>,
    /// CPU timestamp in usec of the start of the process.
    pub start_time: u64,
    /// Time in ms during which the compute context was active; zero while
    /// the process has not ended.
    pub time: u64,
}

impl AccountingStats {
    /// What the accounting statistics that NVML wrote say: a field that holds
    /// the not-available sentinel has no value, and a process is running
    /// unless NVML wrote 0 for it.
    pub open spec fn of(native: NativeAccountingStats) -> AccountingStats {
        AccountingStats {
            gpu_utilization: available_u32(native.gpu_utilization),
            is_running: native.is_running != 0,
            max_memory_usage: available_u64(native.max_memory_usage),
            memory_utilization: available_u32(native.memory_utilization),
            start_time: native.start_time,
            time: native.time,
        }
    }

    /// Builds the value from what NVML wrote.
    pub fn from(struct_: NativeAccountingStats) -> (stats: AccountingStats)
        ensures
            stats == AccountingStats::of(struct_),
    {
        let not_avail_u64: u64 = native::NVML_VALUE_NOT_AVAILABLE_U64;
        let not_avail_u32: u32 = native::NVML_VALUE_NOT_AVAILABLE_U32;

        AccountingStats {
            gpu_utilization: if struct_.gpu_utilization == not_avail_u32 {
                None
            } else {
                Some(struct_.gpu_utilization)
            },
            is_running: struct_.is_running != 0,
            max_memory_usage: if struct_.max_memory_usage == not_avail_u64 {
                None
            } else {
                Some(struct_.max_memory_usage)
            },
            memory_utilization: if struct_.memory_utilization == not_avail_u32 {
                None
            } else {
                Some(struct_.memory_utilization)
            },
            start_time: struct_.start_time,
            time: struct_.time,
        }
    }
}

/// Information about an event that has occurred.
#[derive(Debug, PartialEq, Eq)]
pub struct EventData<'nvml> {
    /// Device where the event occurred.
    pub device: Device<'nvml>,
    /// What kind of event occurred.
    pub event_type: u64,
    /// The last XID error of the device for a critical XID event (999 for an
    /// unknown one), 0 for any other event.
    pub event_data: u64,
}

/// `EventData` with the device as its handle.
pub struct EventDataView {
    pub device: usize,
    pub event_type: u64,
    pub event_data: u64,
}

impl<'nvml> View for EventData<'nvml> {
    type V = EventDataView;

    open spec fn view(&self) -> EventDataView {
        EventDataView {
            device: self.device@,
            event_type: self.event_type,
            event_data: self.event_data,
        }
    }
}

impl<'nvml> EventData<'nvml> {
    /// What the event that NVML wrote says.
    pub open spec fn of(native: NativeEventData) -> EventDataView {
        EventDataView {
            device: native.device,
            event_type: native.event_type,
            event_data: native.event_data,
        }
    }

    /// Builds the value from what NVML wrote for an event, within the
    /// session that the caller takes `'nvml` from.
    pub(crate) fn bound(struct_: NativeEventData) -> (data: EventData<'nvml>)
        ensures
            data@ == EventData::of(struct_),
    {
        EventData {
            device: Device::bound(struct_.device),
            event_type: struct_.event_type,
            event_data: struct_.event_data,
        }
    }

    /// Builds the value from what NVML wrote for an event within session
    /// `nvml`.
    pub fn from(nvml: &'nvml NVML, struct_: NativeEventData) -> (data: EventData<'nvml>)
        ensures
            data@ == EventData::of(struct_),
    {
        EventData::bound(struct_)
    }
}

} // verus!
