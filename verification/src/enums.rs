//! Values that are either a number or the statement that NVML has none.

use vstd::prelude::*;
use crate::native;

verus! {

/// The firmware version of a bridge chip.
#[derive(Clone, Copy, Debug, PartialEq, Eq, Hash, Structural)]
pub enum FirmwareVersion {
    /// NVML reports no version (it writes 0).
    Unavailable,
    /// The version.
    Version(u32),
}

impl FirmwareVersion {
    /// What a firmware version field of NVML says.
    pub open spec fn of(value: u32) -> FirmwareVersion {
        if value == 0 {
            FirmwareVersion::Unavailable
        } else {
            FirmwareVersion::Version(value)
        }
    }

    /// Reads a firmware version field of NVML.
    pub fn from(value: u32) -> (version: FirmwareVersion)
        ensures
            version == FirmwareVersion::of(value),
    {
        if value == 0 {
            FirmwareVersion::Unavailable
        } else {
            FirmwareVersion::Version(value)
        }
    }
}

/// The GPU memory that a process uses.
#[derive(Clone, Copy, Debug, PartialEq, Eq, Hash, Structural)]
pub enum UsedGpuMemory {
    /// NVML cannot tell (it writes the not-available sentinel).
    Unavailable,
    /// Memory used, in bytes.
    Used(u64),
}

impl UsedGpuMemory {
    /// What a used-memory field of NVML says.
    pub open spec fn of(value: u64) -> UsedGpuMemory {
        if value == native::NVML_VALUE_NOT_AVAILABLE_U64 {
            UsedGpuMemory::Unavailable
        } else {
            UsedGpuMemory::Used(value)
        }
    }

    /// Reads a used-memory field of NVML.
    pub fn from(value: u64) -> (used: UsedGpuMemory)
        ensures
            used == UsedGpuMemory::of(value),
    {
        if value == native::NVML_VALUE_NOT_AVAILABLE_U64 {
            UsedGpuMemory::Unavailable
        } else {
            UsedGpuMemory::Used(value)
        }
    }
}

} // verus!
