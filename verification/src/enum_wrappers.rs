//! Enumerations, and how each goes to and from the integer that NVML uses
//! for it.
//!
//! Every enumeration has the same four items: `native`, the integer of a
//! variant; `from_native`, the variant of an integer, if it has one;
//! `into_c` and `try_from`, which compute them. An integer that no variant
//! stands for is never mapped to some default: `try_from` fails on it.

use vstd::prelude::*;
use crate::errors::{recognized, Error, ErrorKind};
use crate::native::EnableState;

verus! {

/// API types that allow changes to default permission restrictions.
#[derive(Clone, Copy, Debug, PartialEq, Eq, Hash, Structural)]
pub enum Api {
    /// APIs that change application clocks.
    ApplicationClocks,
    /// APIs that enable or disable auto boosted clocks.
    AutoBoostedClocks,
}

impl Api {
    /// The integer that NVML uses for this variant.
    pub open spec fn native(self) -> u32 {
        match self {
            Api::ApplicationClocks => 0,
            Api::AutoBoostedClocks => 1,
        }
    }

    /// The variant that an integer of NVML stands for, if there is one.
    pub open spec fn from_native(value: u32) -> Option<Api> {
        if value == 0 {
            Some(Api::ApplicationClocks)
        } else if value == 1 {
            Some(Api::AutoBoostedClocks)
        } else {
            None
        }
    }

    /// The integer that NVML uses for this variant.
    pub fn into_c(&self) -> (value: u32)
        ensures
            value == self.native(),
    {
        match self {
            Api::ApplicationClocks => 0,
            Api::AutoBoostedClocks => 1,
        }
    }

    /// The variant that `value` stands for. Fails with
    /// `UnrecognizedEnumVariant` where no variant has that integer.
    pub fn try_from(value: u32) -> (result: Result<Api, Error>)
        ensures
            result == recognized(Api::from_native(value)),
    {
        match value {
            0 => Ok(Api::ApplicationClocks),
            1 => Ok(Api::AutoBoostedClocks),
            _ => Err(Error::new(ErrorKind::UnrecognizedEnumVariant)),
        }
    }

    /// The integer of a variant stands for that variant again.
    pub proof fn lemma_round_trip(self)
        ensures
            Api::from_native(self.native()) == Some(self),
    {
    }

    /// An integer stands for a variant exactly when it is the integer of that
    /// variant; so an integer of no variant stands for none.
    pub proof fn lemma_recognized(value: u32, variant: Api)
        ensures
            Api::from_native(value) == Some(variant) <==> variant.native()
                == value,
    {
    }
}

/// Clock types. All speeds are in MHz.
#[derive(Clone, Copy, Debug, PartialEq, Eq, Hash, Structural)]
pub enum Clock {
    /// Graphics clock domain.
    Graphics,
    /// SM (streaming multiprocessor) clock domain.
    SM,
    /// Memory clock domain.
    Memory,
    /// Video encoder and decoder clock domain.
    Video,
}

impl Clock {
    /// The integer that NVML uses for this variant.
    pub open spec fn native(self) -> u32 {
        match self {
            Clock::Graphics => 0,
            Clock::SM => 1,
            Clock::Memory => 2,
            Clock::Video => 3,
        }
    }

    /// The variant that an integer of NVML stands for, if there is one.
    pub open spec fn from_native(value: u32) -> Option<Clock> {
        if value == 0 {
            Some(Clock::Graphics)
        } else if value == 1 {
            Some(Clock::SM)
        } else if value == 2 {
            Some(Clock::Memory)
        } else if value == 3 {
            Some(Clock::Video)
        } else {
            None
        }
    }

    /// The integer that NVML uses for this variant.
    pub fn into_c(&self) -> (value: u32)
        ensures
            value == self.native(),
    {
        match self {
            Clock::Graphics => 0,
            Clock::SM => 1,
            Clock::Memory => 2,
            Clock::Video => 3,
        }
    }

    /// The variant that `value` stands for. Fails with
    /// `UnrecognizedEnumVariant` where no variant has that integer.
    pub fn try_from(value: u32) -> (result: Result<Clock, Error>)
        ensures
            result == recognized(Clock::from_native(value)),
    {
        match value {
            0 => Ok(Clock::Graphics),
            1 => Ok(Clock::SM),
            2 => Ok(Clock::Memory),
            3 => Ok(Clock::Video),
            _ => Err(Error::new(ErrorKind::UnrecognizedEnumVariant)),
        }
    }

    /// The integer of a variant stands for that variant again.
    pub proof fn lemma_round_trip(self)
        ensures
            Clock::from_native(self.native()) == Some(self),
    {
    }

    /// An integer stands for a variant exactly when it is the integer of that
    /// variant; so an integer of no variant stands for none.
    pub proof fn lemma_recognized(value: u32, variant: Clock)
        ensures
            Clock::from_native(value) == Some(variant) <==> variant.native()
                == value,
    {
    }
}

/// Used together with `Clock` to name a single clock value.
#[derive(Clone, Copy, Debug, PartialEq, Eq, Hash, Structural)]
pub enum ClockId {
    /// Current actual clock value.
    Current,
    /// Target application clock.
    TargetAppClock,
    /// Default application clock target.
    DefaultAppClock,
    /// OEM-defined maximum clock rate.
    CustomerMaxBoost,
}

impl ClockId {
    /// The integer that NVML uses for this variant.
    pub open spec fn native(self) -> u32 {
        match self {
            ClockId::Current => 0,
            ClockId::TargetAppClock => 1,
            ClockId::DefaultAppClock => 2,
            ClockId::CustomerMaxBoost => 3,
        }
    }

    /// The variant that an integer of NVML stands for, if there is one.
    pub open spec fn from_native(value: u32) -> Option<ClockId> {
        if value == 0 {
            Some(ClockId::Current)
        } else if value == 1 {
            Some(ClockId::TargetAppClock)
        } else if value == 2 {
            Some(ClockId::DefaultAppClock)
        } else if value == 3 {
            Some(ClockId::CustomerMaxBoost)
        } else {
            None
        }
    }

    /// The integer that NVML uses for this variant.
    pub fn into_c(&self) -> (value: u32)
        ensures
            value == self.native(),
    {
        match self {
            ClockId::Current => 0,
            ClockId::TargetAppClock => 1,
            ClockId::DefaultAppClock => 2,
            ClockId::CustomerMaxBoost => 3,
        }
    }

    /// The variant that `value` stands for. Fails with
    /// `UnrecognizedEnumVariant` where no variant has that integer.
    pub fn try_from(value: u32) -> (result: Result<ClockId, Error>)
        ensures
            result == recognized(ClockId::from_native(value)),
    {
        match value {
            0 => Ok(ClockId::Current),
            1 => Ok(ClockId::TargetAppClock),
            2 => Ok(ClockId::DefaultAppClock),
            3 => Ok(ClockId::CustomerMaxBoost),
            _ => Err(Error::new(ErrorKind::UnrecognizedEnumVariant)),
        }
    }

    /// The integer of a variant stands for that variant again.
    pub proof fn lemma_round_trip(self)
        ensures
            ClockId::from_native(self.native()) == Some(self),
    {
    }

    /// An integer stands for a variant exactly when it is the integer of that
    /// variant; so an integer of no variant stands for none.
    pub proof fn lemma_recognized(value: u32, variant: ClockId)
        ensures
            ClockId::from_native(value) == Some(variant) <==> variant.native()
                == value,
    {
    }
}

/// GPU brand.
#[derive(Clone, Copy, Debug, PartialEq, Eq, Hash, Structural)]
pub enum Brand {
    /// The brand is not known.
    Unknown,
    /// Targeted at workstations.
    Quadro,
    /// Targeted at high-end compute.
    Tesla,
    /// NVIDIA's multi-display cards.
    NVS,
    /// Targeted at virtualization (vGPUs).
    GRID,
    /// Targeted at gaming.
    GeForce,
}

impl Brand {
    /// The integer that NVML uses for this variant.
    pub open spec fn native(self) -> u32 {
        match self {
            Brand::Unknown => 0,
            Brand::Quadro => 1,
            Brand::Tesla => 2,
            Brand::NVS => 3,
            Brand::GRID => 4,
            Brand::GeForce => 5,
        }
    }

    /// The variant that an integer of NVML stands for, if there is one.
    pub open spec fn from_native(value: u32) -> Option<Brand> {
        if value == 0 {
            Some(Brand::Unknown)
        } else if value == 1 {
            Some(Brand::Quadro)
        } else if value == 2 {
            Some(Brand::Tesla)
        } else if value == 3 {
            Some(Brand::NVS)
        } else if value == 4 {
            Some(Brand::GRID)
        } else if value == 5 {
            Some(Brand::GeForce)
        } else {
            None
        }
    }

    /// The integer that NVML uses for this variant.
    pub fn into_c(&self) -> (value: u32)
        ensures
            value == self.native(),
    {
        match self {
            Brand::Unknown => 0,
            Brand::Quadro => 1,
            Brand::Tesla => 2,
            Brand::NVS => 3,
            Brand::GRID => 4,
            Brand::GeForce => 5,
        }
    }

    /// The variant that `value` stands for. Fails with
    /// `UnrecognizedEnumVariant` where no variant has that integer.
    pub fn try_from(value: u32) -> (result: Result<Brand, Error>)
        ensures
            result == recognized(Brand::from_native(value)),
    {
        match value {
            0 => Ok(Brand::Unknown),
            1 => Ok(Brand::Quadro),
            2 => Ok(Brand::Tesla),
            3 => Ok(Brand::NVS),
            4 => Ok(Brand::GRID),
            5 => Ok(Brand::GeForce),
            _ => Err(Error::new(ErrorKind::UnrecognizedEnumVariant)),
        }
    }

    /// The integer of a variant stands for that variant again.
    pub proof fn lemma_round_trip(self)
        ensures
            Brand::from_native(self.native()) == Some(self),
    {
    }

    /// An integer stands for a variant exactly when it is the integer of that
    /// variant; so an integer of no variant stands for none.
    pub proof fn lemma_recognized(value: u32, variant: Brand)
        ensures
            Brand::from_native(value) == Some(variant) <==> variant.native()
                == value,
    {
    }
}

/// Type of a bridge chip.
#[derive(Clone, Copy, Debug, PartialEq, Eq, Hash, Structural)]
pub enum BridgeChip {
    /// A PLX bridge chip.
    PLX,
    /// A BR04 bridge chip.
    BRO4,
}

impl BridgeChip {
    /// The integer that NVML uses for this variant.
    pub open spec fn native(self) -> u32 {
        match self {
            BridgeChip::PLX => 0,
            BridgeChip::BRO4 => 1,
        }
    }

    /// The variant that an integer of NVML stands for, if there is one.
    pub open spec fn from_native(value: u32) -> Option<BridgeChip> {
        if value == 0 {
            Some(BridgeChip::PLX)
        } else if value == 1 {
            Some(BridgeChip::BRO4)
        } else {
            None
        }
    }

    /// The integer that NVML uses for this variant.
    pub fn into_c(&self) -> (value: u32)
        ensures
            value == self.native(),
    {
        match self {
            BridgeChip::PLX => 0,
            BridgeChip::BRO4 => 1,
        }
    }

    /// The variant that `value` stands for. Fails with
    /// `UnrecognizedEnumVariant` where no variant has that integer.
    pub fn try_from(value: u32) -> (result: Result<BridgeChip, Error>)
        ensures
            result == recognized(BridgeChip::from_native(value)),
    {
        match value {
            0 => Ok(BridgeChip::PLX),
            1 => Ok(BridgeChip::BRO4),
            _ => Err(Error::new(ErrorKind::UnrecognizedEnumVariant)),
        }
    }

    /// The integer of a variant stands for that variant again.
    pub proof fn lemma_round_trip(self)
        ensures
            BridgeChip::from_native(self.native()) == Some(self),
    {
    }

    /// An integer stands for a variant exactly when it is the integer of that
    /// variant; so an integer of no variant stands for none.
    pub proof fn lemma_recognized(value: u32, variant: BridgeChip)
        ensures
            BridgeChip::from_native(value) == Some(variant) <==> variant.native()
                == value,
    {
    }
}

/// Memory error types.
#[derive(Clone, Copy, Debug, PartialEq, Eq, Hash, Structural)]
pub enum MemoryError {
    /// A memory error that was corrected: for ECC a single bit error, for
    /// texture memory an error fixed by a resend.
    Corrected,
    /// A memory error that was not corrected: for ECC a double bit error, for
    /// texture memory an error where the resend failed.
    Uncorrected,
}

impl MemoryError {
    /// The integer that NVML uses for this variant.
    pub open spec fn native(self) -> u32 {
        match self {
            MemoryError::Corrected => 0,
            MemoryError::Uncorrected => 1,
        }
    }

    /// The variant that an integer of NVML stands for, if there is one.
    pub open spec fn from_native(value: u32) -> Option<MemoryError> {
        if value == 0 {
            Some(MemoryError::Corrected)
        } else if value == 1 {
            Some(MemoryError::Uncorrected)
        } else {
            None
        }
    }

    /// The integer that NVML uses for this variant.
    pub fn into_c(&self) -> (value: u32)
        ensures
            value == self.native(),
    {
        match self {
            MemoryError::Corrected => 0,
            MemoryError::Uncorrected => 1,
        }
    }

    /// The variant that `value` stands for. Fails with
    /// `UnrecognizedEnumVariant` where no variant has that integer.
    pub fn try_from(value: u32) -> (result: Result<MemoryError, Error>)
        ensures
            result == recognized(MemoryError::from_native(value)),
    {
        match value {
            0 => Ok(MemoryError::Corrected),
            1 => Ok(MemoryError::Uncorrected),
            _ => Err(Error::new(ErrorKind::UnrecognizedEnumVariant)),
        }
    }

    /// The integer of a variant stands for that variant again.
    pub proof fn lemma_round_trip(self)
        ensures
            MemoryError::from_native(self.native()) == Some(self),
    {
    }

    /// An integer stands for a variant exactly when it is the integer of that
    /// variant; so an integer of no variant stands for none.
    pub proof fn lemma_recognized(value: u32, variant: MemoryError)
        ensures
            MemoryError::from_native(value) == Some(variant) <==> variant.native()
                == value,
    {
    }
}

/// ECC counter types.
#[derive(Clone, Copy, Debug, PartialEq, Eq, Hash, Structural)]
pub enum EccCounter {
    /// Volatile counts are reset each time the driver loads.
    Volatile,
    /// Aggregate counts persist across reboots, for the lifetime of the device.
    Aggregate,
}

impl EccCounter {
    /// The integer that NVML uses for this variant.
    pub open spec fn native(self) -> u32 {
        match self {
            EccCounter::Volatile => 0,
            EccCounter::Aggregate => 1,
        }
    }

    /// The variant that an integer of NVML stands for, if there is one.
    pub open spec fn from_native(value: u32) -> Option<EccCounter> {
        if value == 0 {
            Some(EccCounter::Volatile)
        } else if value == 1 {
            Some(EccCounter::Aggregate)
        } else {
            None
        }
    }

    /// The integer that NVML uses for this variant.
    pub fn into_c(&self) -> (value: u32)
        ensures
            value == self.native(),
    {
        match self {
            EccCounter::Volatile => 0,
            EccCounter::Aggregate => 1,
        }
    }

    /// The variant that `value` stands for. Fails with
    /// `UnrecognizedEnumVariant` where no variant has that integer.
    pub fn try_from(value: u32) -> (result: Result<EccCounter, Error>)
        ensures
            result == recognized(EccCounter::from_native(value)),
    {
        match value {
            0 => Ok(EccCounter::Volatile),
            1 => Ok(EccCounter::Aggregate),
            _ => Err(Error::new(ErrorKind::UnrecognizedEnumVariant)),
        }
    }

    /// The integer of a variant stands for that variant again.
    pub proof fn lemma_round_trip(self)
        ensures
            EccCounter::from_native(self.native()) == Some(self),
    {
    }

    /// An integer stands for a variant exactly when it is the integer of that
    /// variant; so an integer of no variant stands for none.
    pub proof fn lemma_recognized(value: u32, variant: EccCounter)
        ensures
            EccCounter::from_native(value) == Some(variant) <==> variant.native()
                == value,
    {
    }
}

/// Memory locations. See `Device::memory_error_counter`.
#[derive(Clone, Copy, Debug, PartialEq, Eq, Hash, Structural)]
pub enum MemoryLocation {
    /// GPU L1 cache.
    L1Cache,
    /// GPU L2 cache.
    L2Cache,
    /// GPU device memory.
    Device,
    /// GPU register file.
    RegisterFile,
    /// GPU texture memory.
    Texture,
    /// Shared memory.
    Shared,
}

impl MemoryLocation {
    /// The integer that NVML uses for this variant.
    pub open spec fn native(self) -> u32 {
        match self {
            MemoryLocation::L1Cache => 0,
            MemoryLocation::L2Cache => 1,
            MemoryLocation::Device => 2,
            MemoryLocation::RegisterFile => 3,
            MemoryLocation::Texture => 4,
            MemoryLocation::Shared => 5,
        }
    }

    /// The variant that an integer of NVML stands for, if there is one.
    pub open spec fn from_native(value: u32) -> Option<MemoryLocation> {
        if value == 0 {
            Some(MemoryLocation::L1Cache)
        } else if value == 1 {
            Some(MemoryLocation::L2Cache)
        } else if value == 2 {
            Some(MemoryLocation::Device)
        } else if value == 3 {
            Some(MemoryLocation::RegisterFile)
        } else if value == 4 {
            Some(MemoryLocation::Texture)
        } else if value == 5 {
            Some(MemoryLocation::Shared)
        } else {
            None
        }
    }

    /// The integer that NVML uses for this variant.
    pub fn into_c(&self) -> (value: u32)
        ensures
            value == self.native(),
    {
        match self {
            MemoryLocation::L1Cache => 0,
            MemoryLocation::L2Cache => 1,
            MemoryLocation::Device => 2,
            MemoryLocation::RegisterFile => 3,
            MemoryLocation::Texture => 4,
            MemoryLocation::Shared => 5,
        }
    }

    /// The variant that `value` stands for. Fails with
    /// `UnrecognizedEnumVariant` where no variant has that integer.
    pub fn try_from(value: u32) -> (result: Result<MemoryLocation, Error>)
        ensures
            result == recognized(MemoryLocation::from_native(value)),
    {
        match value {
            0 => Ok(MemoryLocation::L1Cache),
            1 => Ok(MemoryLocation::L2Cache),
            2 => Ok(MemoryLocation::Device),
            3 => Ok(MemoryLocation::RegisterFile),
            4 => Ok(MemoryLocation::Texture),
            5 => Ok(MemoryLocation::Shared),
            _ => Err(Error::new(ErrorKind::UnrecognizedEnumVariant)),
        }
    }

    /// The integer of a variant stands for that variant again.
    pub proof fn lemma_round_trip(self)
        ensures
            MemoryLocation::from_native(self.native()) == Some(self),
    {
    }

    /// An integer stands for a variant exactly when it is the integer of that
    /// variant; so an integer of no variant stands for none.
    pub proof fn lemma_recognized(value: u32, variant: MemoryLocation)
        ensures
            MemoryLocation::from_native(value) == Some(variant) <==> variant.native()
                == value,
    {
    }
}

/// Driver models. NVML knows them on Windows only.
#[derive(Clone, Copy, Debug, PartialEq, Eq, Hash, Structural)]
pub enum DriverModel {
    /// GPU treated as a display device.
    WDDM,
    /// (TCC model) GPU treated as a generic device.
    WDM,
}

impl DriverModel {
    /// The integer that NVML uses for this variant.
    pub open spec fn native(self) -> u32 {
        match self {
            DriverModel::WDDM => 0,
            DriverModel::WDM => 1,
        }
    }

    /// The variant that an integer of NVML stands for, if there is one.
    pub open spec fn from_native(value: u32) -> Option<DriverModel> {
        if value == 0 {
            Some(DriverModel::WDDM)
        } else if value == 1 {
            Some(DriverModel::WDM)
        } else {
            None
        }
    }

    /// The integer that NVML uses for this variant.
    pub fn into_c(&self) -> (value: u32)
        ensures
            value == self.native(),
    {
        match self {
            DriverModel::WDDM => 0,
            DriverModel::WDM => 1,
        }
    }

    /// The variant that `value` stands for. Fails with
    /// `UnrecognizedEnumVariant` where no variant has that integer.
    pub fn try_from(value: u32) -> (result: Result<DriverModel, Error>)
        ensures
            result == recognized(DriverModel::from_native(value)),
    {
        match value {
            0 => Ok(DriverModel::WDDM),
            1 => Ok(DriverModel::WDM),
            _ => Err(Error::new(ErrorKind::UnrecognizedEnumVariant)),
        }
    }

    /// The integer of a variant stands for that variant again.
    pub proof fn lemma_round_trip(self)
        ensures
            DriverModel::from_native(self.native()) == Some(self),
    {
    }

    /// An integer stands for a variant exactly when it is the integer of that
    /// variant; so an integer of no variant stands for none.
    pub proof fn lemma_recognized(value: u32, variant: DriverModel)
        ensures
            DriverModel::from_native(value) == Some(variant) <==> variant.native()
                == value,
    {
    }
}

/// GPU operation mode: trades features for power and throughput.
#[derive(Clone, Copy, Debug, PartialEq, Eq, Hash, Structural)]
pub enum OperationMode {
    /// Everything is enabled and running at full speed.
    AllOn,
    /// Only compute tasks; graphics operations are disabled.
    Compute,
    /// Graphics applications that do not need high bandwidth double precision.
    LowDP,
}

impl OperationMode {
    /// The integer that NVML uses for this variant.
    pub open spec fn native(self) -> u32 {
        match self {
            OperationMode::AllOn => 0,
            OperationMode::Compute => 1,
            OperationMode::LowDP => 2,
        }
    }

    /// The variant that an integer of NVML stands for, if there is one.
    pub open spec fn from_native(value: u32) -> Option<OperationMode> {
        if value == 0 {
            Some(OperationMode::AllOn)
        } else if value == 1 {
            Some(OperationMode::Compute)
        } else if value == 2 {
            Some(OperationMode::LowDP)
        } else {
            None
        }
    }

    /// The integer that NVML uses for this variant.
    pub fn into_c(&self) -> (value: u32)
        ensures
            value == self.native(),
    {
        match self {
            OperationMode::AllOn => 0,
            OperationMode::Compute => 1,
            OperationMode::LowDP => 2,
        }
    }

    /// The variant that `value` stands for. Fails with
    /// `UnrecognizedEnumVariant` where no variant has that integer.
    pub fn try_from(value: u32) -> (result: Result<OperationMode, Error>)
        ensures
            result == recognized(OperationMode::from_native(value)),
    {
        match value {
            0 => Ok(OperationMode::AllOn),
            1 => Ok(OperationMode::Compute),
            2 => Ok(OperationMode::LowDP),
            _ => Err(Error::new(ErrorKind::UnrecognizedEnumVariant)),
        }
    }

    /// The integer of a variant stands for that variant again.
    pub proof fn lemma_round_trip(self)
        ensures
            OperationMode::from_native(self.native()) == Some(self),
    {
    }

    /// An integer stands for a variant exactly when it is the integer of that
    /// variant; so an integer of no variant stands for none.
    pub proof fn lemma_recognized(value: u32, variant: OperationMode)
        ensures
            OperationMode::from_native(value) == Some(variant) <==> variant.native()
                == value,
    {
    }
}

/// Available infoROM objects.
#[derive(Clone, Copy, Debug, PartialEq, Eq, Hash, Structural)]
pub enum InfoROM {
    /// An object defined by the OEM.
    OEM,
    /// The ECC object, which determines the level of ECC support.
    ECC,
    /// The power management object.
    Power,
}

impl InfoROM {
    /// The integer that NVML uses for this variant.
    pub open spec fn native(self) -> u32 {
        match self {
            InfoROM::OEM => 0,
            InfoROM::ECC => 1,
            InfoROM::Power => 2,
        }
    }

    /// The variant that an integer of NVML stands for, if there is one.
    pub open spec fn from_native(value: u32) -> Option<InfoROM> {
        if value == 0 {
            Some(InfoROM::OEM)
        } else if value == 1 {
            Some(InfoROM::ECC)
        } else if value == 2 {
            Some(InfoROM::Power)
        } else {
            None
        }
    }

    /// The integer that NVML uses for this variant.
    pub fn into_c(&self) -> (value: u32)
        ensures
            value == self.native(),
    {
        match self {
            InfoROM::OEM => 0,
            InfoROM::ECC => 1,
            InfoROM::Power => 2,
        }
    }

    /// The variant that `value` stands for. Fails with
    /// `UnrecognizedEnumVariant` where no variant has that integer.
    pub fn try_from(value: u32) -> (result: Result<InfoROM, Error>)
        ensures
            result == recognized(InfoROM::from_native(value)),
    {
        match value {
            0 => Ok(InfoROM::OEM),
            1 => Ok(InfoROM::ECC),
            2 => Ok(InfoROM::Power),
            _ => Err(Error::new(ErrorKind::UnrecognizedEnumVariant)),
        }
    }

    /// The integer of a variant stands for that variant again.
    pub proof fn lemma_round_trip(self)
        ensures
            InfoROM::from_native(self.native()) == Some(self),
    {
    }

    /// An integer stands for a variant exactly when it is the integer of that
    /// variant; so an integer of no variant stands for none.
    pub proof fn lemma_recognized(value: u32, variant: InfoROM)
        ensures
            InfoROM::from_native(value) == Some(variant) <==> variant.native()
                == value,
    {
    }
}

/// The queryable PCIe utilization counters (in bytes, 1KB granularity).
#[derive(Clone, Copy, Debug, PartialEq, Eq, Hash, Structural)]
pub enum PcieUtilCounter {
    /// Bytes transmitted.
    Send,
    /// Bytes received.
    Receive,
}

impl PcieUtilCounter {
    /// The integer that NVML uses for this variant.
    pub open spec fn native(self) -> u32 {
        match self {
            PcieUtilCounter::Send => 0,
            PcieUtilCounter::Receive => 1,
        }
    }

    /// The variant that an integer of NVML stands for, if there is one.
    pub open spec fn from_native(value: u32) -> Option<PcieUtilCounter> {
        if value == 0 {
            Some(PcieUtilCounter::Send)
        } else if value == 1 {
            Some(PcieUtilCounter::Receive)
        } else {
            None
        }
    }

    /// The integer that NVML uses for this variant.
    pub fn into_c(&self) -> (value: u32)
        ensures
            value == self.native(),
    {
        match self {
            PcieUtilCounter::Send => 0,
            PcieUtilCounter::Receive => 1,
        }
    }

    /// The variant that `value` stands for. Fails with
    /// `UnrecognizedEnumVariant` where no variant has that integer.
    pub fn try_from(value: u32) -> (result: Result<PcieUtilCounter, Error>)
        ensures
            result == recognized(PcieUtilCounter::from_native(value)),
    {
        match value {
            0 => Ok(PcieUtilCounter::Send),
            1 => Ok(PcieUtilCounter::Receive),
            _ => Err(Error::new(ErrorKind::UnrecognizedEnumVariant)),
        }
    }

    /// The integer of a variant stands for that variant again.
    pub proof fn lemma_round_trip(self)
        ensures
            PcieUtilCounter::from_native(self.native()) == Some(self),
    {
    }

    /// An integer stands for a variant exactly when it is the integer of that
    /// variant; so an integer of no variant stands for none.
    pub proof fn lemma_recognized(value: u32, variant: PcieUtilCounter)
        ensures
            PcieUtilCounter::from_native(value) == Some(variant) <==> variant.native()
                == value,
    {
    }
}

/// Allowed performance states, from `Zero` (maximum performance) down to
/// `Fifteen` (minimum performance).
#[derive(Clone, Copy, Debug, PartialEq, Eq, Hash, Structural)]
pub enum PerformanceState {
    /// Maximum performance.
    Zero,
    /// Performance state 1.
    One,
    /// Performance state 2.
    Two,
    /// Performance state 3.
    Three,
    /// Performance state 4.
    Four,
    /// Performance state 5.
    Five,
    /// Performance state 6.
    Six,
    /// Performance state 7.
    Seven,
    /// Performance state 8.
    Eight,
    /// Performance state 9.
    Nine,
    /// Performance state 10.
    Ten,
    /// Performance state 11.
    Eleven,
    /// Performance state 12.
    Twelve,
    /// Performance state 13.
    Thirteen,
    /// Performance state 14.
    Fourteen,
    /// Minimum performance.
    Fifteen,
    /// Unknown performance state.
    Unknown,
}

impl PerformanceState {
    /// The integer that NVML uses for this variant.
    pub open spec fn native(self) -> u32 {
        match self {
            PerformanceState::Zero => 0,
            PerformanceState::One => 1,
            PerformanceState::Two => 2,
            PerformanceState::Three => 3,
            PerformanceState::Four => 4,
            PerformanceState::Five => 5,
            PerformanceState::Six => 6,
            PerformanceState::Seven => 7,
            PerformanceState::Eight => 8,
            PerformanceState::Nine => 9,
            PerformanceState::Ten => 10,
            PerformanceState::Eleven => 11,
            PerformanceState::Twelve => 12,
            PerformanceState::Thirteen => 13,
            PerformanceState::Fourteen => 14,
            PerformanceState::Fifteen => 15,
            PerformanceState::Unknown => 32,
        }
    }

    /// The variant that an integer of NVML stands for, if there is one.
    pub open spec fn from_native(value: u32) -> Option<PerformanceState> {
        if value == 0 {
            Some(PerformanceState::Zero)
        } else if value == 1 {
            Some(PerformanceState::One)
        } else if value == 2 {
            Some(PerformanceState::Two)
        } else if value == 3 {
            Some(PerformanceState::Three)
        } else if value == 4 {
            Some(PerformanceState::Four)
        } else if value == 5 {
            Some(PerformanceState::Five)
        } else if value == 6 {
            Some(PerformanceState::Six)
        } else if value == 7 {
            Some(PerformanceState::Seven)
        } else if value == 8 {
            Some(PerformanceState::Eight)
        } else if value == 9 {
            Some(PerformanceState::Nine)
        } else if value == 10 {
            Some(PerformanceState::Ten)
        } else if value == 11 {
            Some(PerformanceState::Eleven)
        } else if value == 12 {
            Some(PerformanceState::Twelve)
        } else if value == 13 {
            Some(PerformanceState::Thirteen)
        } else if value == 14 {
            Some(PerformanceState::Fourteen)
        } else if value == 15 {
            Some(PerformanceState::Fifteen)
        } else if value == 32 {
            Some(PerformanceState::Unknown)
        } else {
            None
        }
    }

    /// The integer that NVML uses for this variant.
    pub fn into_c(&self) -> (value: u32)
        ensures
            value == self.native(),
    {
        match self {
            PerformanceState::Zero => 0,
            PerformanceState::One => 1,
            PerformanceState::Two => 2,
            PerformanceState::Three => 3,
            PerformanceState::Four => 4,
            PerformanceState::Five => 5,
            PerformanceState::Six => 6,
            PerformanceState::Seven => 7,
            PerformanceState::Eight => 8,
            PerformanceState::Nine => 9,
            PerformanceState::Ten => 10,
            PerformanceState::Eleven => 11,
            PerformanceState::Twelve => 12,
            PerformanceState::Thirteen => 13,
            PerformanceState::Fourteen => 14,
            PerformanceState::Fifteen => 15,
            PerformanceState::Unknown => 32,
        }
    }

    /// The variant that `value` stands for. Fails with
    /// `UnrecognizedEnumVariant` where no variant has that integer.
    pub fn try_from(value: u32) -> (result: Result<PerformanceState, Error>)
        ensures
            result == recognized(PerformanceState::from_native(value)),
    {
        match value {
            0 => Ok(PerformanceState::Zero),
            1 => Ok(PerformanceState::One),
            2 => Ok(PerformanceState::Two),
            3 => Ok(PerformanceState::Three),
            4 => Ok(PerformanceState::Four),
            5 => Ok(PerformanceState::Five),
            6 => Ok(PerformanceState::Six),
            7 => Ok(PerformanceState::Seven),
            8 => Ok(PerformanceState::Eight),
            9 => Ok(PerformanceState::Nine),
            10 => Ok(PerformanceState::Ten),
            11 => Ok(PerformanceState::Eleven),
            12 => Ok(PerformanceState::Twelve),
            13 => Ok(PerformanceState::Thirteen),
            14 => Ok(PerformanceState::Fourteen),
            15 => Ok(PerformanceState::Fifteen),
            32 => Ok(PerformanceState::Unknown),
            _ => Err(Error::new(ErrorKind::UnrecognizedEnumVariant)),
        }
    }

    /// The integer of a variant stands for that variant again.
    pub proof fn lemma_round_trip(self)
        ensures
            PerformanceState::from_native(self.native()) == Some(self),
    {
    }

    /// An integer stands for a variant exactly when it is the integer of that
    /// variant; so an integer of no variant stands for none.
    pub proof fn lemma_recognized(value: u32, variant: PerformanceState)
        ensures
            PerformanceState::from_native(value) == Some(variant) <==> variant.native()
                == value,
    {
    }
}

/// Causes for page retirement.
#[derive(Clone, Copy, Debug, PartialEq, Eq, Hash, Structural)]
pub enum RetirementCause {
    /// The page was retired after multiple single bit ECC errors.
    MultipleSingleBitEccErrors,
    /// The page was retired after a double bit ECC error.
    DoubleBitEccError,
}

impl RetirementCause {
    /// The integer that NVML uses for this variant.
    pub open spec fn native(self) -> u32 {
        match self {
            RetirementCause::MultipleSingleBitEccErrors => 0,
            RetirementCause::DoubleBitEccError => 1,
        }
    }

    /// The variant that an integer of NVML stands for, if there is one.
    pub open spec fn from_native(value: u32) -> Option<RetirementCause> {
        if value == 0 {
            Some(RetirementCause::MultipleSingleBitEccErrors)
        } else if value == 1 {
            Some(RetirementCause::DoubleBitEccError)
        } else {
            None
        }
    }

    /// The integer that NVML uses for this variant.
    pub fn into_c(&self) -> (value: u32)
        ensures
            value == self.native(),
    {
        match self {
            RetirementCause::MultipleSingleBitEccErrors => 0,
            RetirementCause::DoubleBitEccError => 1,
        }
    }

    /// The variant that `value` stands for. Fails with
    /// `UnrecognizedEnumVariant` where no variant has that integer.
    pub fn try_from(value: u32) -> (result: Result<RetirementCause, Error>)
        ensures
            result == recognized(RetirementCause::from_native(value)),
    {
        match value {
            0 => Ok(RetirementCause::MultipleSingleBitEccErrors),
            1 => Ok(RetirementCause::DoubleBitEccError),
            _ => Err(Error::new(ErrorKind::UnrecognizedEnumVariant)),
        }
    }

    /// The integer of a variant stands for that variant again.
    pub proof fn lemma_round_trip(self)
        ensures
            RetirementCause::from_native(self.native()) == Some(self),
    {
    }

    /// An integer stands for a variant exactly when it is the integer of that
    /// variant; so an integer of no variant stands for none.
    pub proof fn lemma_recognized(value: u32, variant: RetirementCause)
        ensures
            RetirementCause::from_native(value) == Some(variant) <==> variant.native()
                == value,
    {
    }
}

/// Possible types of sampling events.
#[derive(Clone, Copy, Debug, PartialEq, Eq, Hash, Structural)]
pub enum Sampling {
    /// Total power drawn by the GPU.
    Power,
    /// Percent of time during which one or more kernels was executing on the GPU.
    GpuUtilization,
    /// Percent of time during which device memory was being read or written.
    MemoryUtilization,
    /// Percent of time during which NVENC remains busy.
    EncoderUtilization,
    /// Percent of time during which NVDEC remains busy.
    DecoderUtilization,
    /// Processor clock samples.
    ProcessorClock,
    /// Memory clock samples.
    MemoryClock,
}

impl Sampling {
    /// The integer that NVML uses for this variant.
    pub open spec fn native(self) -> u32 {
        match self {
            Sampling::Power => 0,
            Sampling::GpuUtilization => 1,
            Sampling::MemoryUtilization => 2,
            Sampling::EncoderUtilization => 3,
            Sampling::DecoderUtilization => 4,
            Sampling::ProcessorClock => 5,
            Sampling::MemoryClock => 6,
        }
    }

    /// The variant that an integer of NVML stands for, if there is one.
    pub open spec fn from_native(value: u32) -> Option<Sampling> {
        if value == 0 {
            Some(Sampling::Power)
        } else if value == 1 {
            Some(Sampling::GpuUtilization)
        } else if value == 2 {
            Some(Sampling::MemoryUtilization)
        } else if value == 3 {
            Some(Sampling::EncoderUtilization)
        } else if value == 4 {
            Some(Sampling::DecoderUtilization)
        } else if value == 5 {
            Some(Sampling::ProcessorClock)
        } else if value == 6 {
            Some(Sampling::MemoryClock)
        } else {
            None
        }
    }

    /// The integer that NVML uses for this variant.
    pub fn into_c(&self) -> (value: u32)
        ensures
            value == self.native(),
    {
        match self {
            Sampling::Power => 0,
            Sampling::GpuUtilization => 1,
            Sampling::MemoryUtilization => 2,
            Sampling::EncoderUtilization => 3,
            Sampling::DecoderUtilization => 4,
            Sampling::ProcessorClock => 5,
            Sampling::MemoryClock => 6,
        }
    }

    /// The variant that `value` stands for. Fails with
    /// `UnrecognizedEnumVariant` where no variant has that integer.
    pub fn try_from(value: u32) -> (result: Result<Sampling, Error>)
        ensures
            result == recognized(Sampling::from_native(value)),
    {
        match value {
            0 => Ok(Sampling::Power),
            1 => Ok(Sampling::GpuUtilization),
            2 => Ok(Sampling::MemoryUtilization),
            3 => Ok(Sampling::EncoderUtilization),
            4 => Ok(Sampling::DecoderUtilization),
            5 => Ok(Sampling::ProcessorClock),
            6 => Ok(Sampling::MemoryClock),
            _ => Err(Error::new(ErrorKind::UnrecognizedEnumVariant)),
        }
    }

    /// The integer of a variant stands for that variant again.
    pub proof fn lemma_round_trip(self)
        ensures
            Sampling::from_native(self.native()) == Some(self),
    {
    }

    /// An integer stands for a variant exactly when it is the integer of that
    /// variant; so an integer of no variant stands for none.
    pub proof fn lemma_recognized(value: u32, variant: Sampling)
        ensures
            Sampling::from_native(value) == Some(variant) <==> variant.native()
                == value,
    {
    }
}

/// Temperature sensors.
#[derive(Clone, Copy, Debug, PartialEq, Eq, Hash, Structural)]
pub enum TemperatureSensor {
    /// Sensor for the GPU die.
    Gpu,
}

impl TemperatureSensor {
    /// The integer that NVML uses for this variant.
    pub open spec fn native(self) -> u32 {
        match self {
            TemperatureSensor::Gpu => 0,
        }
    }

    /// The variant that an integer of NVML stands for, if there is one.
    pub open spec fn from_native(value: u32) -> Option<TemperatureSensor> {
        if value == 0 {
            Some(TemperatureSensor::Gpu)
        } else {
            None
        }
    }

    /// The integer that NVML uses for this variant.
    pub fn into_c(&self) -> (value: u32)
        ensures
            value == self.native(),
    {
        match self {
            TemperatureSensor::Gpu => 0,
        }
    }

    /// The variant that `value` stands for. Fails with
    /// `UnrecognizedEnumVariant` where no variant has that integer.
    pub fn try_from(value: u32) -> (result: Result<TemperatureSensor, Error>)
        ensures
            result == recognized(TemperatureSensor::from_native(value)),
    {
        match value {
            0 => Ok(TemperatureSensor::Gpu),
            _ => Err(Error::new(ErrorKind::UnrecognizedEnumVariant)),
        }
    }

    /// The integer of a variant stands for that variant again.
    pub proof fn lemma_round_trip(self)
        ensures
            TemperatureSensor::from_native(self.native()) == Some(self),
    {
    }

    /// An integer stands for a variant exactly when it is the integer of that
    /// variant; so an integer of no variant stands for none.
    pub proof fn lemma_recognized(value: u32, variant: TemperatureSensor)
        ensures
            TemperatureSensor::from_native(value) == Some(variant) <==> variant.native()
                == value,
    {
    }
}

/// Temperature thresholds.
#[derive(Clone, Copy, Debug, PartialEq, Eq, Hash, Structural)]
pub enum TemperatureThreshold {
    /// Temperature at which the GPU will shut down for hardware protection.
    Shutdown,
    /// Temperature at which the GPU will begin to throttle.
    Slowdown,
}

impl TemperatureThreshold {
    /// The integer that NVML uses for this variant.
    pub open spec fn native(self) -> u32 {
        match self {
            TemperatureThreshold::Shutdown => 0,
            TemperatureThreshold::Slowdown => 1,
        }
    }

    /// The variant that an integer of NVML stands for, if there is one.
    pub open spec fn from_native(value: u32) -> Option<TemperatureThreshold> {
        if value == 0 {
            Some(TemperatureThreshold::Shutdown)
        } else if value == 1 {
            Some(TemperatureThreshold::Slowdown)
        } else {
            None
        }
    }

    /// The integer that NVML uses for this variant.
    pub fn into_c(&self) -> (value: u32)
        ensures
            value == self.native(),
    {
        match self {
            TemperatureThreshold::Shutdown => 0,
            TemperatureThreshold::Slowdown => 1,
        }
    }

    /// The variant that `value` stands for. Fails with
    /// `UnrecognizedEnumVariant` where no variant has that integer.
    pub fn try_from(value: u32) -> (result: Result<TemperatureThreshold, Error>)
        ensures
            result == recognized(TemperatureThreshold::from_native(value)),
    {
        match value {
            0 => Ok(TemperatureThreshold::Shutdown),
            1 => Ok(TemperatureThreshold::Slowdown),
            _ => Err(Error::new(ErrorKind::UnrecognizedEnumVariant)),
        }
    }

    /// The integer of a variant stands for that variant again.
    pub proof fn lemma_round_trip(self)
        ensures
            TemperatureThreshold::from_native(self.native()) == Some(self),
    {
    }

    /// An integer stands for a variant exactly when it is the integer of that
    /// variant; so an integer of no variant stands for none.
    pub proof fn lemma_recognized(value: u32, variant: TemperatureThreshold)
        ensures
            TemperatureThreshold::from_native(value) == Some(variant) <==> variant.native()
                == value,
    {
    }
}

/// Level relationships within a system between two GPUs.
#[derive(Clone, Copy, Debug, PartialEq, Eq, Hash, Structural)]
pub enum TopologyLevel {
    /// On the same board, as on a Tesla K80.
    Internal,
    /// All devices that only need traverse a single PCIe switch.
    Single,
    /// All devices that need not traverse a host bridge.
    Multiple,
    /// All devices that are connected to the same host bridge.
    HostBridge,
    /// All devices that are connected to the same CPU, possibly through several
    /// host bridges.
    Cpu,
    /// All devices in the system.
    System,
}

impl TopologyLevel {
    /// The integer that NVML uses for this variant.
    pub open spec fn native(self) -> u32 {
        match self {
            TopologyLevel::Internal => 0,
            TopologyLevel::Single => 10,
            TopologyLevel::Multiple => 20,
            TopologyLevel::HostBridge => 30,
            TopologyLevel::Cpu => 40,
            TopologyLevel::System => 50,
        }
    }

    /// The variant that an integer of NVML stands for, if there is one.
    pub open spec fn from_native(value: u32) -> Option<TopologyLevel> {
        if value == 0 {
            Some(TopologyLevel::Internal)
        } else if value == 10 {
            Some(TopologyLevel::Single)
        } else if value == 20 {
            Some(TopologyLevel::Multiple)
        } else if value == 30 {
            Some(TopologyLevel::HostBridge)
        } else if value == 40 {
            Some(TopologyLevel::Cpu)
        } else if value == 50 {
            Some(TopologyLevel::System)
        } else {
            None
        }
    }

    /// The integer that NVML uses for this variant.
    pub fn into_c(&self) -> (value: u32)
        ensures
            value == self.native(),
    {
        match self {
            TopologyLevel::Internal => 0,
            TopologyLevel::Single => 10,
            TopologyLevel::Multiple => 20,
            TopologyLevel::HostBridge => 30,
            TopologyLevel::Cpu => 40,
            TopologyLevel::System => 50,
        }
    }

    /// The variant that `value` stands for. Fails with
    /// `UnrecognizedEnumVariant` where no variant has that integer.
    pub fn try_from(value: u32) -> (result: Result<TopologyLevel, Error>)
        ensures
            result == recognized(TopologyLevel::from_native(value)),
    {
        match value {
            0 => Ok(TopologyLevel::Internal),
            10 => Ok(TopologyLevel::Single),
            20 => Ok(TopologyLevel::Multiple),
            30 => Ok(TopologyLevel::HostBridge),
            40 => Ok(TopologyLevel::Cpu),
            50 => Ok(TopologyLevel::System),
            _ => Err(Error::new(ErrorKind::UnrecognizedEnumVariant)),
        }
    }

    /// The integer of a variant stands for that variant again.
    pub proof fn lemma_round_trip(self)
        ensures
            TopologyLevel::from_native(self.native()) == Some(self),
    {
    }

    /// An integer stands for a variant exactly when it is the integer of that
    /// variant; so an integer of no variant stands for none.
    pub proof fn lemma_recognized(value: u32, variant: TopologyLevel)
        ensures
            TopologyLevel::from_native(value) == Some(variant) <==> variant.native()
                == value,
    {
    }
}

/// Types of performance policy for which violation times can be queried.
#[derive(Clone, Copy, Debug, PartialEq, Eq, Hash, Structural)]
pub enum PerformancePolicy {
    /// Power limit policy.
    Power,
    /// Thermal limit policy.
    Thermal,
    /// Sync boost policy.
    SyncBoost,
}

impl PerformancePolicy {
    /// The integer that NVML uses for this variant.
    pub open spec fn native(self) -> u32 {
        match self {
            PerformancePolicy::Power => 0,
            PerformancePolicy::Thermal => 1,
            PerformancePolicy::SyncBoost => 2,
        }
    }

    /// The variant that an integer of NVML stands for, if there is one.
    pub open spec fn from_native(value: u32) -> Option<PerformancePolicy> {
        if value == 0 {
            Some(PerformancePolicy::Power)
        } else if value == 1 {
            Some(PerformancePolicy::Thermal)
        } else if value == 2 {
            Some(PerformancePolicy::SyncBoost)
        } else {
            None
        }
    }

    /// The integer that NVML uses for this variant.
    pub fn into_c(&self) -> (value: u32)
        ensures
            value == self.native(),
    {
        match self {
            PerformancePolicy::Power => 0,
            PerformancePolicy::Thermal => 1,
            PerformancePolicy::SyncBoost => 2,
        }
    }

    /// The variant that `value` stands for. Fails with
    /// `UnrecognizedEnumVariant` where no variant has that integer.
    pub fn try_from(value: u32) -> (result: Result<PerformancePolicy, Error>)
        ensures
            result == recognized(PerformancePolicy::from_native(value)),
    {
        match value {
            0 => Ok(PerformancePolicy::Power),
            1 => Ok(PerformancePolicy::Thermal),
            2 => Ok(PerformancePolicy::SyncBoost),
            _ => Err(Error::new(ErrorKind::UnrecognizedEnumVariant)),
        }
    }

    /// The integer of a variant stands for that variant again.
    pub proof fn lemma_round_trip(self)
        ensures
            PerformancePolicy::from_native(self.native()) == Some(self),
    {
    }

    /// An integer stands for a variant exactly when it is the integer of that
    /// variant; so an integer of no variant stands for none.
    pub proof fn lemma_recognized(value: u32, variant: PerformancePolicy)
        ensures
            PerformancePolicy::from_native(value) == Some(variant) <==> variant.native()
                == value,
    {
    }
}

/// Unit fan state.
#[derive(Clone, Copy, Debug, PartialEq, Eq, Hash, Structural)]
pub enum FanState {
    /// The fan is working properly.
    Normal,
    /// The fan has failed.
    Failed,
}

impl FanState {
    /// The integer that NVML uses for this variant.
    pub open spec fn native(self) -> u32 {
        match self {
            FanState::Normal => 0,
            FanState::Failed => 1,
        }
    }

    /// The variant that an integer of NVML stands for, if there is one.
    pub open spec fn from_native(value: u32) -> Option<FanState> {
        if value == 0 {
            Some(FanState::Normal)
        } else if value == 1 {
            Some(FanState::Failed)
        } else {
            None
        }
    }

    /// The integer that NVML uses for this variant.
    pub fn into_c(&self) -> (value: u32)
        ensures
            value == self.native(),
    {
        match self {
            FanState::Normal => 0,
            FanState::Failed => 1,
        }
    }

    /// The variant that `value` stands for. Fails with
    /// `UnrecognizedEnumVariant` where no variant has that integer.
    pub fn try_from(value: u32) -> (result: Result<FanState, Error>)
        ensures
            result == recognized(FanState::from_native(value)),
    {
        match value {
            0 => Ok(FanState::Normal),
            1 => Ok(FanState::Failed),
            _ => Err(Error::new(ErrorKind::UnrecognizedEnumVariant)),
        }
    }

    /// The integer of a variant stands for that variant again.
    pub proof fn lemma_round_trip(self)
        ensures
            FanState::from_native(self.native()) == Some(self),
    {
    }

    /// An integer stands for a variant exactly when it is the integer of that
    /// variant; so an integer of no variant stands for none.
    pub proof fn lemma_recognized(value: u32, variant: FanState)
        ensures
            FanState::from_native(value) == Some(variant) <==> variant.native()
                == value,
    {
    }
}

/// Unit LED color.
#[derive(Clone, Copy, Debug, PartialEq, Eq, Hash, Structural)]
pub enum LedColor {
    /// Used to indicate good health.
    Green,
    /// Used to indicate a problem.
    Amber,
}

impl LedColor {
    /// The integer that NVML uses for this variant.
    pub open spec fn native(self) -> u32 {
        match self {
            LedColor::Green => 0,
            LedColor::Amber => 1,
        }
    }

    /// The variant that an integer of NVML stands for, if there is one.
    pub open spec fn from_native(value: u32) -> Option<LedColor> {
        if value == 0 {
            Some(LedColor::Green)
        } else if value == 1 {
            Some(LedColor::Amber)
        } else {
            None
        }
    }

    /// The integer that NVML uses for this variant.
    pub fn into_c(&self) -> (value: u32)
        ensures
            value == self.native(),
    {
        match self {
            LedColor::Green => 0,
            LedColor::Amber => 1,
        }
    }

    /// The variant that `value` stands for. Fails with
    /// `UnrecognizedEnumVariant` where no variant has that integer.
    pub fn try_from(value: u32) -> (result: Result<LedColor, Error>)
        ensures
            result == recognized(LedColor::from_native(value)),
    {
        match value {
            0 => Ok(LedColor::Green),
            1 => Ok(LedColor::Amber),
            _ => Err(Error::new(ErrorKind::UnrecognizedEnumVariant)),
        }
    }

    /// The integer of a variant stands for that variant again.
    pub proof fn lemma_round_trip(self)
        ensures
            LedColor::from_native(self.native()) == Some(self),
    {
    }

    /// An integer stands for a variant exactly when it is the integer of that
    /// variant; so an integer of no variant stands for none.
    pub proof fn lemma_recognized(value: u32, variant: LedColor)
        ensures
            LedColor::from_native(value) == Some(variant) <==> variant.native()
                == value,
    {
    }
}

/// Compute modes.
#[derive(Clone, Copy, Debug, PartialEq, Eq, Hash, Structural)]
pub enum ComputeMode {
    /// Multiple contexts per device.
    Default,
    /// Only one context per device, usable from one thread at a time. NVML no
    /// longer supports it.
    ExclusiveThread,
    /// No contexts per device.
    Prohibited,
    /// Only one context per device, usable from multiple threads at a time.
    ExclusiveProcess,
}

impl ComputeMode {
    /// The integer that NVML uses for this variant.
    pub open spec fn native(self) -> u32 {
        match self {
            ComputeMode::Default => 0,
            ComputeMode::ExclusiveThread => 1,
            ComputeMode::Prohibited => 2,
            ComputeMode::ExclusiveProcess => 3,
        }
    }

    /// The variant that an integer of NVML stands for, if there is one.
    pub open spec fn from_native(value: u32) -> Option<ComputeMode> {
        if value == 0 {
            Some(ComputeMode::Default)
        } else if value == 1 {
            Some(ComputeMode::ExclusiveThread)
        } else if value == 2 {
            Some(ComputeMode::Prohibited)
        } else if value == 3 {
            Some(ComputeMode::ExclusiveProcess)
        } else {
            None
        }
    }

    /// The integer that NVML uses for this variant.
    pub fn into_c(&self) -> (value: u32)
        ensures
            value == self.native(),
    {
        match self {
            ComputeMode::Default => 0,
            ComputeMode::ExclusiveThread => 1,
            ComputeMode::Prohibited => 2,
            ComputeMode::ExclusiveProcess => 3,
        }
    }

    /// The variant that `value` stands for. Fails with
    /// `UnrecognizedEnumVariant` where no variant has that integer.
    pub fn try_from(value: u32) -> (result: Result<ComputeMode, Error>)
        ensures
            result == recognized(ComputeMode::from_native(value)),
    {
        match value {
            0 => Ok(ComputeMode::Default),
            1 => Ok(ComputeMode::ExclusiveThread),
            2 => Ok(ComputeMode::Prohibited),
            3 => Ok(ComputeMode::ExclusiveProcess),
            _ => Err(Error::new(ErrorKind::UnrecognizedEnumVariant)),
        }
    }

    /// The integer of a variant stands for that variant again.
    pub proof fn lemma_round_trip(self)
        ensures
            ComputeMode::from_native(self.native()) == Some(self),
    {
    }

    /// An integer stands for a variant exactly when it is the integer of that
    /// variant; so an integer of no variant stands for none.
    pub proof fn lemma_recognized(value: u32, variant: ComputeMode)
        ensures
            ComputeMode::from_native(value) == Some(variant) <==> variant.native()
                == value,
    {
    }
}

/// Whether a feature is enabled, from the state that NVML reports for it.
pub open spec fn state_enabled(state: EnableState) -> bool {
    state is Enabled
}

/// The state that asks NVML to enable a feature, or to disable it.
pub open spec fn state_of(enabled: bool) -> EnableState {
    if enabled {
        EnableState::Enabled
    } else {
        EnableState::Disabled
    }
}

/// Whether a feature is enabled, from the integer that NVML wrote for its
/// state; `UnrecognizedEnumVariant` where the integer is no state.
pub open spec fn enabled_of(state: u32) -> Result<bool, Error> {
    match EnableState::from_native(state) {
        Some(state) => Ok(state_enabled(state)),
        None => Err(Error::of(ErrorKind::UnrecognizedEnumVariant)),
    }
}

/// Whether a feature is enabled, from the state that NVML reports for it.
pub fn bool_from_state(state: EnableState) -> (enabled: bool)
    ensures
        enabled == state_enabled(state),
{
    match state {
        EnableState::Disabled => false,
        EnableState::Enabled => true,
    }
}

/// The state that asks NVML to enable a feature, or to disable it.
pub fn state_from_bool(bool_: bool) -> (state: EnableState)
    ensures
        state == state_of(bool_),
{
    match bool_ {
        false => EnableState::Disabled,
        true => EnableState::Enabled,
    }
}

/// Reads the integer that NVML wrote for the state of a feature.
pub fn enabled_from(state: u32) -> (result: Result<bool, Error>)
    ensures
        result == enabled_of(state),
{
    Ok(bool_from_state(EnableState::try_from(state)?))
}

/// Asking for a state and reading it back gives what was asked for.
pub proof fn lemma_state_round_trip(enabled: bool)
    ensures
        state_enabled(state_of(enabled)) == enabled,
        enabled_of(state_of(enabled).native()) == Ok::<bool, Error>(enabled),
{
}

} // verus!
