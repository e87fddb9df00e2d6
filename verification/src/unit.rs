//! An S-class unit: the enclosure that holds fans, power supplies and LEDs.

use vstd::prelude::*;
use core::marker::PhantomData;
use crate::buffers::{filled, view_result};
use crate::device::{devices_from, view_devices, Device};
use crate::enum_wrappers::LedColor;
use crate::errors::{after, nvml_try, status_result, Error};
use crate::native::{NativeCall, NativePsuInfo, NativeUnitFanSpeeds, NativeUnitInfo};
use crate::struct_wrappers::{UnitFansInfo, UnitInfo, UnitPsuInfo};
use crate::NVML;

verus! {

/// An S-class unit of the system.
///
/// A `Unit` comes from a session and borrows it: the session cannot be shut
/// down while a unit of it is still around.
#[derive(Debug, PartialEq, Eq)]
pub struct Unit<'nvml> {
    unit: usize,
    _phantom: PhantomData<&'nvml NVML>,
}

impl<'nvml> View for Unit<'nvml> {
    type V = usize;

    /// The handle by which NVML knows the unit.
    closed spec fn view(&self) -> usize {
        self.unit
    }
}

impl<'nvml> Unit<'nvml> {
    /// The unit of session `nvml` that NVML knows by `unit`.
    pub fn new(nvml: &'nvml NVML, unit: usize) -> (created: Unit<'nvml>)
        ensures
            created@ == unit,
    {
        Unit { unit, _phantom: PhantomData }
    }

    /// The handle by which NVML knows this unit. It is only good for handing
    /// back to NVML, and only while the session lasts.
    pub fn c_unit(&self) -> (unit: usize)
        ensures
            unit == self@,
    {
        self.unit
    }

    /// What to hand to NVML for [`Unit::devices`]: `nvmlUnitGetDevices` and
    /// its arguments, without the places that it writes to. NVML takes an
    /// unsigned int there: `size` goes cut to its low 32 bits.
    pub fn devices_call(&self, size: usize) -> (call: NativeCall)
        ensures
            call == (NativeCall::UnitGetDevices { unit: self@, capacity: size as u32 }),
    {
        NativeCall::UnitGetDevices {
            unit: self.unit,
            capacity: #[verifier::truncate] (size as u32),
        }
    }

    /// The devices that are attached to this unit, with room offered for
    /// `size` of them.
    ///
    /// Reads what `nvmlUnitGetDevices` returned. A status other than success
    /// is the error, and nothing that the call wrote is looked at. On
    /// success the result holds the devices whose handles the call counted,
    /// in their order, and none after them, whatever room was offered.
    pub fn devices(&self, status: u32, count: u32, devices: &[usize]) -> (result: Result<
        Vec<Device<'nvml>>,
        Error,
    >)
        ensures
            view_devices(result) == after(status, Ok(filled(count, devices@))),
    {
        nvml_try(status)?;
        Ok(devices_from(count, devices))
    }

    /// What to hand to NVML for [`Unit::fans_info`]:
    /// `nvmlUnitGetFanSpeedInfo` and its arguments, without the places that
    /// it writes to.
    pub fn fans_info_call(&self) -> (call: NativeCall)
        ensures
            call == (NativeCall::UnitGetFanSpeedInfo { unit: self@ }),
    {
        NativeCall::UnitGetFanSpeedInfo { unit: self.unit }
    }

    /// The readings of the fans of this unit.
    ///
    /// Reads what `nvmlUnitGetFanSpeedInfo` returned. A status other than
    /// success is the error, and nothing that the call wrote is looked at.
    /// On success the result is built from the struct that it filled in, if
    /// that can be read.
    pub fn fans_info(&self, status: u32, fans_info: NativeUnitFanSpeeds) -> (result: Result<
        UnitFansInfo,
        Error,
    >)
        ensures
            view_result(result) == after(status, UnitFansInfo::of(fans_info)),
    {
        nvml_try(status)?;
        UnitFansInfo::try_from(fans_info)
    }

    /// What to hand to NVML for [`Unit::info`]: `nvmlUnitGetUnitInfo` and its
    /// arguments, without the places that it writes to.
    pub fn info_call(&self) -> (call: NativeCall)
        ensures
            call == (NativeCall::UnitGetUnitInfo { unit: self@ }),
    {
        NativeCall::UnitGetUnitInfo { unit: self.unit }
    }

    /// The static information on this unit.
    ///
    /// Reads what `nvmlUnitGetUnitInfo` returned. A status other than
    /// success is the error, and nothing that the call wrote is looked at.
    /// On success the result is built from the struct that it filled in, if
    /// that can be read.
    pub fn info(&self, status: u32, info: NativeUnitInfo) -> (result: Result<UnitInfo, Error>)
        ensures
            view_result(result) == after(status, UnitInfo::of(info)),
    {
        nvml_try(status)?;
        UnitInfo::try_from(info)
    }

    /// What to hand to NVML for [`Unit::psu_info`]: `nvmlUnitGetPsuInfo` and
    /// its arguments, without the places that it writes to.
    pub fn psu_info_call(&self) -> (call: NativeCall)
        ensures
            call == (NativeCall::UnitGetPsuInfo { unit: self@ }),
    {
        NativeCall::UnitGetPsuInfo { unit: self.unit }
    }

    /// The readings of the power supply of this unit.
    ///
    /// Reads what `nvmlUnitGetPsuInfo` returned. A status other than success
    /// is the error, and nothing that the call wrote is looked at. On
    /// success the result is built from the struct that it filled in, if
    /// that can be read.
    pub fn psu_info(&self, status: u32, psu_info: NativePsuInfo) -> (result: Result<
        UnitPsuInfo,
        Error,
    >)
        ensures
            view_result(result) == after(status, UnitPsuInfo::of(psu_info)),
    {
        nvml_try(status)?;
        UnitPsuInfo::try_from(psu_info)
    }

    /// What to hand to NVML for [`Unit::set_led_color`]:
    /// `nvmlUnitSetLedState` and its arguments.
    pub fn set_led_color_call(&self, color: LedColor) -> (call: NativeCall)
        ensures
            call == (NativeCall::UnitSetLedState { unit: self@, color: color.native() }),
    {
        NativeCall::UnitSetLedState { unit: self.unit, color: color.into_c() }
    }

    /// Sets the color of the LED of this unit.
    ///
    /// Reads what `nvmlUnitSetLedState` returned. The status is all that the
    /// call returns: success, or the error.
    pub fn set_led_color(&self, status: u32) -> (result: Result<(), Error>)
        ensures
            result == status_result(status),
    {
        nvml_try(status)
    }
}

} // verus!
