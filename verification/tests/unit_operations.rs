//! Every operation of a unit: the call that it describes, and what it reads
//! from what came back.

use nvml_wrapper::enum_wrappers::{FanState, LedColor};
use nvml_wrapper::errors::{Error, ErrorKind};
use nvml_wrapper::native::{
    NativeCall, NativePsuInfo, NativeUnitFanInfo, NativeUnitFanSpeeds, NativeUnitInfo,
};
use nvml_wrapper::struct_wrappers::{FanInfo, UnitFansInfo, UnitInfo, UnitPsuInfo};
use nvml_wrapper::unit::Unit;
use nvml_wrapper::NVML;

const UNIT: usize = 0x51;

fn plain(kind: ErrorKind) -> Error {
    Error { kind, cleanup: None }
}

fn text<const N: usize>(text: &[u8]) -> [u8; N] {
    let mut bytes = [0x2a; N];
    bytes[..text.len()].copy_from_slice(text);
    bytes[text.len()] = 0;
    bytes
}

#[test]
fn unit_devices_calls_and_reads() {
    let nvml = NVML::init(0).expect("status 0 is success");
    let unit = Unit::new(&nvml, UNIT);
    assert_eq!(unit.c_unit(), UNIT);
    assert_eq!(unit.devices_call(4), NativeCall::UnitGetDevices { unit: UNIT, capacity: 4 });
    let room: [usize; 4] = [0xa1, 0xa2, 0, 0];
    let read = unit.devices(0, 2, &room).expect("two devices");
    assert_eq!(
        read.iter().map(|device| device.c_device()).collect::<Vec<usize>>(),
        vec![0xa1, 0xa2]
    );
    assert_eq!(unit.devices(0, 9, &room).map(|read| read.len()), Ok(4));
    assert_eq!(unit.devices(7, 9, &room), Err(plain(ErrorKind::InsufficientSize)));
}

#[test]
fn unit_fans_info_calls_and_reads() {
    let nvml = NVML::init(0).expect("status 0 is success");
    let unit = Unit::new(&nvml, UNIT);
    assert_eq!(unit.fans_info_call(), NativeCall::UnitGetFanSpeedInfo { unit: UNIT });
    let mut fans = [NativeUnitFanInfo { speed: 0, state: 7 }; 24];
    fans[0] = NativeUnitFanInfo { speed: 3000, state: 0 };
    let written = NativeUnitFanSpeeds { fans, count: 1 };
    assert_eq!(
        unit.fans_info(0, written),
        Ok(UnitFansInfo { count: 1, fans: vec![FanInfo { speed: 3000, state: FanState::Normal }] })
    );
    assert_eq!(unit.fans_info(3, written), Err(plain(ErrorKind::NotSupported)));
    let written = NativeUnitFanSpeeds { fans, count: 2 };
    assert_eq!(unit.fans_info(0, written), Err(plain(ErrorKind::UnrecognizedEnumVariant)));
    assert_eq!(unit.fans_info(3, written), Err(plain(ErrorKind::NotSupported)));
}

#[test]
fn unit_info_calls_and_reads() {
    let nvml = NVML::init(0).expect("status 0 is success");
    let unit = Unit::new(&nvml, UNIT);
    assert_eq!(unit.info_call(), NativeCall::UnitGetUnitInfo { unit: UNIT });
    let written = NativeUnitInfo {
        name: text(b"S1070"),
        id: text(b"920-20804"),
        serial: text(b"0323"),
        firmware_version: text(b"3.6"),
    };
    assert_eq!(
        unit.info(0, written),
        Ok(UnitInfo {
            firmware_version: "3.6".to_string(),
            id: "920-20804".to_string(),
            name: "S1070".to_string(),
            serial: "0323".to_string(),
        })
    );
    assert_eq!(unit.info(2, written), Err(plain(ErrorKind::InvalidArgument)));
    let written = NativeUnitInfo { serial: text(&[0xff]), ..written };
    assert_eq!(unit.info(0, written), Err(plain(ErrorKind::Utf8DecodeError)));
}

#[test]
fn unit_psu_info_calls_and_reads() {
    let nvml = NVML::init(0).expect("status 0 is success");
    let unit = Unit::new(&nvml, UNIT);
    assert_eq!(unit.psu_info_call(), NativeCall::UnitGetPsuInfo { unit: UNIT });
    let written = NativePsuInfo { state: text(b"Normal"), current: 10, voltage: 12, power: 120 };
    assert_eq!(
        unit.psu_info(0, written),
        Ok(UnitPsuInfo { current: 10, power_draw: 120, state: "Normal".to_string(), voltage: 12 })
    );
    assert_eq!(unit.psu_info(3, written), Err(plain(ErrorKind::NotSupported)));
}

#[test]
fn unit_set_led_color_calls_and_reads() {
    let nvml = NVML::init(0).expect("status 0 is success");
    let unit = Unit::new(&nvml, UNIT);
    assert_eq!(
        unit.set_led_color_call(LedColor::Green),
        NativeCall::UnitSetLedState { unit: UNIT, color: 0 }
    );
    assert_eq!(
        unit.set_led_color_call(LedColor::Amber),
        NativeCall::UnitSetLedState { unit: UNIT, color: 1 }
    );
    assert_eq!(unit.set_led_color(0), Ok(()));
    assert_eq!(unit.set_led_color(4), Err(plain(ErrorKind::NoPermission)));
}
