//! Small values that a query hands back where NVML writes two things at once.

use vstd::prelude::*;
use crate::enum_wrappers::{enabled_from, enabled_of, DriverModel, OperationMode};
use crate::errors::{Error, ErrorKind};

verus! {

/// Whether auto boosted clocks are enabled, now and by default.
#[derive(Clone, Copy, Debug, PartialEq, Eq, Hash, Structural)]
pub struct AutoBoostClocksEnabledInfo {
    /// Current state of auto boosted clocks for the device.
    pub is_enabled: bool,
    /// Default state of auto boosted clocks, which the device goes back to
    /// when no process holds it.
    pub is_enabled_default: bool,
}

impl AutoBoostClocksEnabledInfo {
    /// What the two integers that NVML wrote say;
    /// `UnrecognizedEnumVariant` where one of them is no enable state.
    pub open spec fn of(is_enabled: u32, is_enabled_default: u32) -> Result<
        AutoBoostClocksEnabledInfo,
        Error,
    > {
        match (enabled_of(is_enabled), enabled_of(is_enabled_default)) {
            (Ok(is_enabled), Ok(is_enabled_default)) => Ok(
                AutoBoostClocksEnabledInfo { is_enabled, is_enabled_default },
            ),
            _ => Err(Error::of(ErrorKind::UnrecognizedEnumVariant)),
        }
    }

    /// Builds the value from the two integers that NVML wrote.
    pub fn try_from(is_enabled: u32, is_enabled_default: u32) -> (result: Result<
        AutoBoostClocksEnabledInfo,
        Error,
    >)
        ensures
            result == AutoBoostClocksEnabledInfo::of(is_enabled, is_enabled_default),
    {
        let is_enabled = enabled_from(is_enabled)?;
        let is_enabled_default = enabled_from(is_enabled_default)?;
        Ok(AutoBoostClocksEnabledInfo { is_enabled, is_enabled_default })
    }
}

/// Utilization of the video decoder.
#[derive(Clone, Copy, Debug, PartialEq, Eq, Hash, Structural)]
pub struct DecoderUtilizationInfo {
    /// Percent of time during which the decoder was busy.
    pub utilization: u32,
    /// Sampling period in microseconds.
    pub sampling_period: u32,
}

/// Utilization of the video encoder.
#[derive(Clone, Copy, Debug, PartialEq, Eq, Hash, Structural)]
pub struct EncoderUtilizationInfo {
    /// Percent of time during which the encoder was busy.
    pub utilization: u32,
    /// Sampling period in microseconds.
    pub sampling_period: u32,
}

/// ECC mode, now and after the next reboot.
#[derive(Clone, Copy, Debug, PartialEq, Eq, Hash, Structural)]
pub struct EccModeInfo {
    /// Whether ECC is enabled now.
    pub currently_enabled: bool,
    /// Whether ECC will be enabled after the next reboot.
    pub pending_enabled: bool,
}

impl EccModeInfo {
    /// What the two integers that NVML wrote say;
    /// `UnrecognizedEnumVariant` where one of them is no enable state.
    pub open spec fn of(current: u32, pending: u32) -> Result<EccModeInfo, Error> {
        match (enabled_of(current), enabled_of(pending)) {
            (Ok(currently_enabled), Ok(pending_enabled)) => Ok(
                EccModeInfo { currently_enabled, pending_enabled },
            ),
            _ => Err(Error::of(ErrorKind::UnrecognizedEnumVariant)),
        }
    }

    /// Builds the value from the two integers that NVML wrote.
    pub fn try_from(current: u32, pending: u32) -> (result: Result<EccModeInfo, Error>)
        ensures
            result == EccModeInfo::of(current, pending),
    {
        let currently_enabled = enabled_from(current)?;
        let pending_enabled = enabled_from(pending)?;
        Ok(EccModeInfo { currently_enabled, pending_enabled })
    }
}

/// GPU operation mode, now and after the next reboot.
#[derive(Clone, Copy, Debug, PartialEq, Eq, Hash, Structural)]
pub struct OperationModeInfo {
    /// The mode in use.
    pub current: OperationMode,
    /// The mode that will be in use after the next reboot.
    pub pending: OperationMode,
}

impl OperationModeInfo {
    /// What the two integers that NVML wrote say;
    /// `UnrecognizedEnumVariant` where one of them is no operation mode that is known.
    pub open spec fn of(current: u32, pending: u32) -> Result<OperationModeInfo, Error> {
        match (OperationMode::from_native(current), OperationMode::from_native(pending)) {
            (Some(current), Some(pending)) => Ok(OperationModeInfo { current, pending }),
            _ => Err(Error::of(ErrorKind::UnrecognizedEnumVariant)),
        }
    }

    /// Builds the value from the two integers that NVML wrote.
    pub fn try_from(current: u32, pending: u32) -> (result: Result<OperationModeInfo, Error>)
        ensures
            result == OperationModeInfo::of(current, pending),
    {
        let current = OperationMode::try_from(current)?;
        let pending = OperationMode::try_from(pending)?;
        Ok(OperationModeInfo { current, pending })
    }
}

/// Driver model, now and after the next reboot.
#[derive(Clone, Copy, Debug, PartialEq, Eq, Hash, Structural)]
pub struct DriverModels {
    /// The driver model in use.
    pub current: DriverModel,
    /// The driver model that will be in use after the next reboot.
    pub pending: DriverModel,
}

impl DriverModels {
    /// What the two integers that NVML wrote say;
    /// `UnrecognizedEnumVariant` where one of them is no driver model that is known.
    pub open spec fn of(current: u32, pending: u32) -> Result<DriverModels, Error> {
        match (DriverModel::from_native(current), DriverModel::from_native(pending)) {
            (Some(current), Some(pending)) => Ok(DriverModels { current, pending }),
            _ => Err(Error::of(ErrorKind::UnrecognizedEnumVariant)),
        }
    }

    /// Builds the value from the two integers that NVML wrote.
    pub fn try_from(current: u32, pending: u32) -> (result: Result<DriverModels, Error>)
        ensures
            result == DriverModels::of(current, pending),
    {
        let current = DriverModel::try_from(current)?;
        let pending = DriverModel::try_from(pending)?;
        Ok(DriverModels { current, pending })
    }
}

/// The range within which the power management limit can be set (in milliwatts).
#[derive(Clone, Copy, Debug, PartialEq, Eq, Hash, Structural)]
pub struct PowerManagementConstraints {
    /// Smallest limit that can be set.
    pub min_limit: u32,
    /// Largest limit that can be set.
    pub max_limit: u32,
}

} // verus!
