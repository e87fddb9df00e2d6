//! Every operation of a session: the call that it describes, and what it reads
//! from what came back.

use nvml_wrapper::device::Device;
use nvml_wrapper::enum_wrappers::TopologyLevel;
use nvml_wrapper::errors::{Error, ErrorKind};
use nvml_wrapper::native::NativeCall;
use nvml_wrapper::NVML;

const DEVICE: usize = 0xd0;
const OTHER: usize = 0xd1;

fn plain(kind: ErrorKind) -> Error {
    Error { kind, cleanup: None }
}

#[test]
fn nvml_device_count_calls_and_reads() {
    let nvml = NVML::init(0).expect("status 0 is success");
    assert_eq!(nvml.device_count_call(), NativeCall::DeviceGetCount);
    assert_eq!(nvml.device_count(0, 77), Ok(77));
    assert_eq!(nvml.device_count(0, 0), Ok(0));
    assert_eq!(nvml.device_count(0, u32::MAX), Ok(u32::MAX));
    assert_eq!(nvml.device_count(15, 77), Err(plain(ErrorKind::GpuIsLost)));
    assert_eq!(nvml.device_count(1, 77), Err(plain(ErrorKind::Uninitialized)));
}

#[test]
fn nvml_sys_driver_version_calls_and_reads() {
    let nvml = NVML::init(0).expect("status 0 is success");
    assert_eq!(nvml.sys_driver_version_call(), NativeCall::SystemGetDriverVersion { length: 80 });
    assert_eq!(
        nvml.sys_driver_version(0, b"Tesla V100\0\xff\xfe rest"),
        Ok("Tesla V100".to_string())
    );
    assert_eq!(nvml.sys_driver_version(0, b"\xff\0"), Err(plain(ErrorKind::Utf8DecodeError)));
    assert_eq!(
        nvml.sys_driver_version(7, b"Tesla V100\0"),
        Err(plain(ErrorKind::InsufficientSize))
    );
    assert_eq!(nvml.sys_driver_version(7, b"\xff\0"), Err(plain(ErrorKind::InsufficientSize)));
}

#[test]
fn nvml_sys_nvml_version_calls_and_reads() {
    let nvml = NVML::init(0).expect("status 0 is success");
    assert_eq!(nvml.sys_nvml_version_call(), NativeCall::SystemGetNvmlVersion { length: 80 });
    assert_eq!(
        nvml.sys_nvml_version(0, b"Tesla V100\0\xff\xfe rest"),
        Ok("Tesla V100".to_string())
    );
    assert_eq!(nvml.sys_nvml_version(0, b"\xff\0"), Err(plain(ErrorKind::Utf8DecodeError)));
    assert_eq!(nvml.sys_nvml_version(7, b"Tesla V100\0"), Err(plain(ErrorKind::InsufficientSize)));
    assert_eq!(nvml.sys_nvml_version(7, b"\xff\0"), Err(plain(ErrorKind::InsufficientSize)));
}

#[test]
fn nvml_sys_process_name_calls_and_reads() {
    let nvml = NVML::init(0).expect("status 0 is success");
    assert_eq!(
        nvml.sys_process_name_call(1234, 10),
        NativeCall::SystemGetProcessName { pid: 1234, length: 10 }
    );
    assert_eq!(
        nvml.sys_process_name_call(1234, 0),
        NativeCall::SystemGetProcessName { pid: 1234, length: 0 }
    );
    assert_eq!(
        nvml.sys_process_name(0, b"Tesla V100\0\xff\xfe rest"),
        Ok("Tesla V100".to_string())
    );
    assert_eq!(nvml.sys_process_name(0, b"\xff\0"), Err(plain(ErrorKind::Utf8DecodeError)));
    assert_eq!(nvml.sys_process_name(7, b"Tesla V100\0"), Err(plain(ErrorKind::InsufficientSize)));
    assert_eq!(nvml.sys_process_name(7, b"\xff\0"), Err(plain(ErrorKind::InsufficientSize)));
}

#[test]
fn nvml_device_by_index_calls_and_reads() {
    let nvml = NVML::init(0).expect("status 0 is success");
    assert_eq!(nvml.device_by_index_call(1234), NativeCall::DeviceGetHandleByIndex { index: 1234 });
    assert_eq!(nvml.device_by_index(0, 0xbeef).map(|found| found.c_device()), Ok(0xbeef));
    assert_eq!(
        nvml.device_by_index(6, 0xbeef).map(|found| found.c_device()),
        Err(plain(ErrorKind::NotFound))
    );
    assert_eq!(
        nvml.device_by_index(2, 0).map(|found| found.c_device()),
        Err(plain(ErrorKind::InvalidArgument))
    );
}

#[test]
fn nvml_device_by_pci_bus_id_calls_and_reads() {
    let nvml = NVML::init(0).expect("status 0 is success");
    assert_eq!(
        nvml.device_by_pci_bus_id_call("GPU-7"),
        Ok(NativeCall::DeviceGetHandleByPciBusId { pci_bus_id: b"GPU-7\0".to_vec() })
    );
    assert_eq!(
        nvml.device_by_pci_bus_id_call("GPU\0-7"),
        Err(plain(ErrorKind::UnexpectedNullByte))
    );
    assert_eq!(nvml.device_by_pci_bus_id(0, 0xbeef).map(|found| found.c_device()), Ok(0xbeef));
    assert_eq!(
        nvml.device_by_pci_bus_id(6, 0xbeef).map(|found| found.c_device()),
        Err(plain(ErrorKind::NotFound))
    );
    assert_eq!(
        nvml.device_by_pci_bus_id(2, 0).map(|found| found.c_device()),
        Err(plain(ErrorKind::InvalidArgument))
    );
}

#[test]
fn nvml_device_by_serial_calls_and_reads() {
    let nvml = NVML::init(0).expect("status 0 is success");
    assert_eq!(
        nvml.device_by_serial_call("GPU-7"),
        Ok(NativeCall::DeviceGetHandleBySerial { serial: b"GPU-7\0".to_vec() })
    );
    assert_eq!(nvml.device_by_serial_call("GPU\0-7"), Err(plain(ErrorKind::UnexpectedNullByte)));
    assert_eq!(nvml.device_by_serial(0, 0xbeef).map(|found| found.c_device()), Ok(0xbeef));
    assert_eq!(
        nvml.device_by_serial(6, 0xbeef).map(|found| found.c_device()),
        Err(plain(ErrorKind::NotFound))
    );
    assert_eq!(
        nvml.device_by_serial(2, 0).map(|found| found.c_device()),
        Err(plain(ErrorKind::InvalidArgument))
    );
}

#[test]
fn nvml_device_by_uuid_calls_and_reads() {
    let nvml = NVML::init(0).expect("status 0 is success");
    assert_eq!(
        nvml.device_by_uuid_call("GPU-7"),
        Ok(NativeCall::DeviceGetHandleByUuid { uuid: b"GPU-7\0".to_vec() })
    );
    assert_eq!(nvml.device_by_uuid_call("GPU\0-7"), Err(plain(ErrorKind::UnexpectedNullByte)));
    assert_eq!(nvml.device_by_uuid(0, 0xbeef).map(|found| found.c_device()), Ok(0xbeef));
    assert_eq!(
        nvml.device_by_uuid(6, 0xbeef).map(|found| found.c_device()),
        Err(plain(ErrorKind::NotFound))
    );
    assert_eq!(
        nvml.device_by_uuid(2, 0).map(|found| found.c_device()),
        Err(plain(ErrorKind::InvalidArgument))
    );
}

#[test]
fn nvml_topology_common_ancestor_calls_and_reads() {
    let nvml = NVML::init(0).expect("status 0 is success");
    let device = Device::new(&nvml, DEVICE);
    let other = Device::new(&nvml, OTHER);
    assert_eq!(
        nvml.topology_common_ancestor_call(&device, &other),
        NativeCall::DeviceGetTopologyCommonAncestor { device: DEVICE, other: OTHER }
    );
    assert_eq!(nvml.topology_common_ancestor(0, 0), Ok(TopologyLevel::Internal));
    assert_eq!(nvml.topology_common_ancestor(0, 50), Ok(TopologyLevel::System));
    assert_eq!(nvml.topology_common_ancestor(0, 1), Err(plain(ErrorKind::UnrecognizedEnumVariant)));
    assert_eq!(nvml.topology_common_ancestor(15, 0), Err(plain(ErrorKind::GpuIsLost)));
    assert_eq!(nvml.topology_common_ancestor(15, 1), Err(plain(ErrorKind::GpuIsLost)));
}

#[test]
fn nvml_topology_nearest_gpus_calls_and_reads() {
    let nvml = NVML::init(0).expect("status 0 is success");
    let device = Device::new(&nvml, DEVICE);
    let other = Device::new(&nvml, OTHER);
    assert_eq!(
        nvml.topology_nearest_gpus_call(&device, TopologyLevel::System, 10),
        NativeCall::DeviceGetTopologyNearestGpus { device: DEVICE, level: 50, capacity: 10 }
    );
    assert_eq!(
        nvml.topology_nearest_gpus_call(&device, TopologyLevel::Internal, 10),
        NativeCall::DeviceGetTopologyNearestGpus { device: DEVICE, level: 0, capacity: 10 }
    );
    assert_eq!(
        nvml.topology_nearest_gpus_call(&device, TopologyLevel::System, 0),
        NativeCall::DeviceGetTopologyNearestGpus { device: DEVICE, level: 50, capacity: 0 }
    );
    let room: [usize; 10] = [0xa1, 0xa2, 0xa3, 0, 0, 0, 0, 0, 0, 0];
    let read = nvml.topology_nearest_gpus(0, 3, &room).expect("three devices");
    assert_eq!(read.len(), 3);
    assert_eq!(
        read.iter().map(|device| device.c_device()).collect::<Vec<usize>>(),
        vec![0xa1, 0xa2, 0xa3]
    );
    assert_eq!(nvml.topology_nearest_gpus(0, 0, &room), Ok(Vec::new()));
    assert_eq!(nvml.topology_nearest_gpus(0, 11, &room).map(|read| read.len()), Ok(10));
    assert_eq!(nvml.topology_nearest_gpus(7, 3, &room), Err(plain(ErrorKind::InsufficientSize)));
    assert_eq!(nvml.topology_nearest_gpus(3, 3, &room), Err(plain(ErrorKind::NotSupported)));
}

#[test]
fn nvml_unit_by_index_calls_and_reads() {
    let nvml = NVML::init(0).expect("status 0 is success");
    assert_eq!(nvml.unit_by_index_call(1234), NativeCall::UnitGetHandleByIndex { index: 1234 });
    assert_eq!(nvml.unit_by_index(0, 0xbeef).map(|found| found.c_unit()), Ok(0xbeef));
    assert_eq!(
        nvml.unit_by_index(6, 0xbeef).map(|found| found.c_unit()),
        Err(plain(ErrorKind::NotFound))
    );
    assert_eq!(
        nvml.unit_by_index(2, 0).map(|found| found.c_unit()),
        Err(plain(ErrorKind::InvalidArgument))
    );
}

#[test]
fn nvml_is_device_on_same_board_as_calls_and_reads() {
    let nvml = NVML::init(0).expect("status 0 is success");
    let device = Device::new(&nvml, DEVICE);
    let other = Device::new(&nvml, OTHER);
    assert_eq!(
        NVML::is_device_on_same_board_as_call(&device, &other),
        NativeCall::DeviceOnSameBoard { device: DEVICE, other: OTHER }
    );
    assert_eq!(NVML::is_device_on_same_board_as(0, 0), Ok(false));
    assert_eq!(NVML::is_device_on_same_board_as(0, 1), Ok(true));
    assert_eq!(NVML::is_device_on_same_board_as(0, 2), Ok(true));
    assert_eq!(NVML::is_device_on_same_board_as(0, -1), Ok(true));
    assert_eq!(NVML::is_device_on_same_board_as(3, 1), Err(plain(ErrorKind::NotSupported)));
}

#[test]
fn nvml_topology_gpu_set_calls_and_reads() {
    let nvml = NVML::init(0).expect("status 0 is success");
    assert_eq!(
        nvml.topology_gpu_set_call(1234, 10),
        NativeCall::SystemGetTopologyGpuSet { cpu_number: 1234, capacity: 10 }
    );
    assert_eq!(
        nvml.topology_gpu_set_call(1234, 0),
        NativeCall::SystemGetTopologyGpuSet { cpu_number: 1234, capacity: 0 }
    );
    let room: [usize; 10] = [0xa1, 0xa2, 0xa3, 0, 0, 0, 0, 0, 0, 0];
    let read = nvml.topology_gpu_set(0, 3, &room).expect("three devices");
    assert_eq!(read.len(), 3);
    assert_eq!(
        read.iter().map(|device| device.c_device()).collect::<Vec<usize>>(),
        vec![0xa1, 0xa2, 0xa3]
    );
    assert_eq!(nvml.topology_gpu_set(0, 0, &room), Ok(Vec::new()));
    assert_eq!(nvml.topology_gpu_set(0, 11, &room).map(|read| read.len()), Ok(10));
    assert_eq!(nvml.topology_gpu_set(7, 3, &room), Err(plain(ErrorKind::InsufficientSize)));
    assert_eq!(nvml.topology_gpu_set(3, 3, &room), Err(plain(ErrorKind::NotSupported)));
}

#[test]
fn nvml_unit_count_calls_and_reads() {
    let nvml = NVML::init(0).expect("status 0 is success");
    assert_eq!(nvml.unit_count_call(), NativeCall::UnitGetCount);
    assert_eq!(nvml.unit_count(0, 77), Ok(77));
    assert_eq!(nvml.unit_count(0, 0), Ok(0));
    assert_eq!(nvml.unit_count(0, u32::MAX), Ok(u32::MAX));
    assert_eq!(nvml.unit_count(15, 77), Err(plain(ErrorKind::GpuIsLost)));
    assert_eq!(nvml.unit_count(1, 77), Err(plain(ErrorKind::Uninitialized)));
}

#[test]
fn nvml_create_event_set_calls_and_reads() {
    let nvml = NVML::init(0).expect("status 0 is success");
    assert_eq!(nvml.create_event_set_call(), NativeCall::EventSetCreate);
    assert_eq!(nvml.create_event_set(0, 0xbeef).map(|found| found.c_set()), Ok(0xbeef));
    assert_eq!(
        nvml.create_event_set(6, 0xbeef).map(|found| found.c_set()),
        Err(plain(ErrorKind::NotFound))
    );
    assert_eq!(
        nvml.create_event_set(2, 0).map(|found| found.c_set()),
        Err(plain(ErrorKind::InvalidArgument))
    );
}

#[test]
fn nvml_init_and_shutdown_call_and_read() {
    assert_eq!(NVML::init_call(), NativeCall::Init);
    let nvml = NVML::init(0).expect("status 0 is success");
    assert_eq!(nvml.shutdown_call(), NativeCall::Shutdown);
    assert_eq!(nvml.shutdown(0), Ok(()));

    assert_eq!(NVML::init(9).map(|_| ()), Err(plain(ErrorKind::DriverNotLoaded)));
    assert_eq!(NVML::init(4).map(|_| ()), Err(plain(ErrorKind::NoPermission)));
    assert_eq!(NVML::init(999).map(|_| ()), Err(plain(ErrorKind::Unknown)));

    let nvml = NVML::init(0).expect("status 0 is success");
    assert_eq!(nvml.shutdown(1), Err(plain(ErrorKind::Uninitialized)));
    let nvml = NVML::init(0).expect("status 0 is success");
    assert_eq!(nvml.shutdown(999), Err(plain(ErrorKind::Unknown)));
}

#[test]
fn a_lookup_by_text_hands_the_text_on_with_its_terminator() {
    let nvml = NVML::init(0).expect("status 0 is success");
    assert_eq!(
        nvml.device_by_pci_bus_id_call("0000:01:00.0"),
        Ok(NativeCall::DeviceGetHandleByPciBusId { pci_bus_id: b"0000:01:00.0\0".to_vec() })
    );
    assert_eq!(
        nvml.device_by_uuid_call(""),
        Ok(NativeCall::DeviceGetHandleByUuid { uuid: vec![0] })
    );
    assert_eq!(
        nvml.device_by_serial_call("0323\0"),
        Err(plain(ErrorKind::UnexpectedNullByte))
    );
}

#[test]
fn a_length_goes_to_nvml_as_an_unsigned_int() {
    let nvml = NVML::init(0).expect("status 0 is success");
    assert_eq!(
        nvml.sys_process_name_call(1, 80),
        NativeCall::SystemGetProcessName { pid: 1, length: 80 }
    );
    assert_eq!(
        nvml.sys_process_name_call(1, u32::MAX as usize),
        NativeCall::SystemGetProcessName { pid: 1, length: u32::MAX }
    );
}
