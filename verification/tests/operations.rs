//! Whole operations against a simulated NVML: the call that an operation
//! describes is performed on a machine that lives in this file, and what the
//! machine returns is handed to the function that reads it.

use nvml_wrapper::device::Device;
use nvml_wrapper::enum_wrappers::{Api, Brand, Clock, TopologyLevel};
use nvml_wrapper::enums::UsedGpuMemory;
use nvml_wrapper::errors::{Error, ErrorKind};
use nvml_wrapper::native::{NativeCall, NativePciInfo, NativeProcessInfo};
use nvml_wrapper::struct_wrappers::{PciInfo, ProcessInfo};
use nvml_wrapper::NVML;
use std::cell::{Cell, RefCell};
use std::sync::Arc;

const SUCCESS: u32 = 0;
const UNINITIALIZED: u32 = 1;
const INVALID_ARGUMENT: u32 = 2;
const INSUFFICIENT_SIZE: u32 = 7;

/// What the machine hands back for a call: the status, and whatever the
/// call writes.
#[derive(Debug, PartialEq)]
enum Reply {
    Status(u32),
    Value(u32, u32),
    Text(u32, Vec<u8>),
    Handle(u32, usize),
    Handles(u32, u32, Vec<usize>),
    Processes(u32, u32, Vec<NativeProcessInfo>),
    Pci(u32, NativePciInfo),
}

/// A simulated NVML with a number of GPUs. It counts its initializations as
/// NVML does, and answers nothing but `Uninitialized` while the count is 0.
struct Machine {
    gpus: usize,
    initializations: Cell<u32>,
    processes: Vec<NativeProcessInfo>,
    calls: RefCell<Vec<NativeCall>>,
}

const FIRST_HANDLE: usize = 0x1000;

fn text_in(capacity: u32, text: &str) -> (u32, Vec<u8>) {
    let mut buffer = vec![0xaau8; capacity as usize];
    if text.len() + 1 > buffer.len() {
        return (INSUFFICIENT_SIZE, buffer);
    }
    buffer[..text.len()].copy_from_slice(text.as_bytes());
    buffer[text.len()] = 0;
    (SUCCESS, buffer)
}

fn bus_id(index: usize) -> [u8; 16] {
    let text = format!("0000:0{}:00.0", index + 1);
    let mut bytes = [0x55u8; 16];
    bytes[..text.len()].copy_from_slice(text.as_bytes());
    bytes[text.len()] = 0;
    bytes
}

impl Machine {
    fn new(gpus: usize) -> Machine {
        Machine {
            gpus,
            initializations: Cell::new(0),
            processes: vec![
                NativeProcessInfo { pid: 4242, used_gpu_memory: 1 << 20 },
                NativeProcessInfo { pid: 4243, used_gpu_memory: u64::MAX },
                NativeProcessInfo { pid: 4244, used_gpu_memory: 0 },
            ],
            calls: RefCell::new(Vec::new()),
        }
    }

    fn gpu(&self, handle: usize) -> Option<usize> {
        if handle >= FIRST_HANDLE && handle < FIRST_HANDLE + self.gpus {
            Some(handle - FIRST_HANDLE)
        } else {
            None
        }
    }

    fn count_of(&self, entry: fn(&NativeCall) -> bool) -> usize {
        self.calls.borrow().iter().filter(|call| entry(call)).count()
    }

    fn perform(&self, call: NativeCall) -> Reply {
        let reply = self.answer(&call);
        self.calls.borrow_mut().push(call);
        reply
    }

    fn answer(&self, call: &NativeCall) -> Reply {
        match call {
            NativeCall::Init => {
                self.initializations.set(self.initializations.get() + 1);
                return Reply::Status(SUCCESS);
            },
            NativeCall::Shutdown => {
                if self.initializations.get() == 0 {
                    return Reply::Status(UNINITIALIZED);
                }
                self.initializations.set(self.initializations.get() - 1);
                return Reply::Status(SUCCESS);
            },
            _ => {},
        }
        let live = self.initializations.get() > 0;
        match call {
            NativeCall::DeviceGetCount => {
                if live {
                    Reply::Value(SUCCESS, self.gpus as u32)
                } else {
                    Reply::Value(UNINITIALIZED, 0)
                }
            },
            NativeCall::SystemGetDriverVersion { length } => {
                if !live {
                    return Reply::Text(UNINITIALIZED, vec![0xaa; *length as usize]);
                }
                let (status, buffer) = text_in(*length, "375.26");
                Reply::Text(status, buffer)
            },
            NativeCall::SystemGetNvmlVersion { length } => {
                if !live {
                    return Reply::Text(UNINITIALIZED, vec![0xaa; *length as usize]);
                }
                let (status, buffer) = text_in(*length, "8.375.26");
                Reply::Text(status, buffer)
            },
            NativeCall::SystemGetProcessName { pid, length } => {
                if !live {
                    return Reply::Text(UNINITIALIZED, vec![0xaa; *length as usize]);
                }
                if *length == 0 {
                    return Reply::Text(INVALID_ARGUMENT, Vec::new());
                }
                let name = format!("/usr/bin/process-{}", pid);
                let kept = name.len().min(*length as usize - 1);
                let (status, buffer) = text_in(*length, &name[..kept]);
                Reply::Text(status, buffer)
            },
            NativeCall::DeviceGetHandleByIndex { index } => {
                if !live {
                    return Reply::Handle(UNINITIALIZED, 0);
                }
                if (*index as usize) < self.gpus {
                    Reply::Handle(SUCCESS, FIRST_HANDLE + *index as usize)
                } else {
                    Reply::Handle(INVALID_ARGUMENT, 0)
                }
            },
            NativeCall::DeviceGetName { device, length } => {
                if !live {
                    return Reply::Text(UNINITIALIZED, vec![0xaa; *length as usize]);
                }
                match self.gpu(*device) {
                    Some(index) => {
                        let (status, buffer) = text_in(*length, &format!("Tesla V100 #{}", index));
                        Reply::Text(status, buffer)
                    },
                    None => Reply::Text(INVALID_ARGUMENT, vec![0xaa; *length as usize]),
                }
            },
            NativeCall::DeviceGetBrand { device } => {
                if !live {
                    return Reply::Value(UNINITIALIZED, 0);
                }
                match self.gpu(*device) {
                    Some(_) => Reply::Value(SUCCESS, 2),
                    None => Reply::Value(INVALID_ARGUMENT, 0),
                }
            },
            NativeCall::DeviceGetIndex { device } => {
                if !live {
                    return Reply::Value(UNINITIALIZED, 0);
                }
                match self.gpu(*device) {
                    Some(index) => Reply::Value(SUCCESS, index as u32),
                    None => Reply::Value(INVALID_ARGUMENT, 0),
                }
            },
            NativeCall::DeviceGetClockInfo { device, clock_type } => {
                if !live {
                    return Reply::Value(UNINITIALIZED, 0);
                }
                match (self.gpu(*device), *clock_type) {
                    (Some(_), 0..=3) => Reply::Value(SUCCESS, 1000 + 100 * *clock_type),
                    _ => Reply::Value(INVALID_ARGUMENT, 0),
                }
            },
            NativeCall::DeviceGetMaxClockInfo { device, clock_type } => {
                if !live {
                    return Reply::Value(UNINITIALIZED, 0);
                }
                match (self.gpu(*device), *clock_type) {
                    (Some(_), 0..=3) => Reply::Value(SUCCESS, 2000 + 100 * *clock_type),
                    _ => Reply::Value(INVALID_ARGUMENT, 0),
                }
            },
            NativeCall::DeviceGetApplicationsClock { device, clock_type } => {
                if !live {
                    return Reply::Value(UNINITIALIZED, 0);
                }
                match (self.gpu(*device), *clock_type) {
                    (Some(_), 0..=3) => Reply::Value(SUCCESS, 1500 + *clock_type),
                    _ => Reply::Value(INVALID_ARGUMENT, 0),
                }
            },
            NativeCall::DeviceGetApiRestriction { device, api } => {
                if !live {
                    return Reply::Value(UNINITIALIZED, 0);
                }
                match (self.gpu(*device), *api) {
                    (Some(_), 0) => Reply::Value(SUCCESS, 1),
                    (Some(_), 1) => Reply::Value(SUCCESS, 0),
                    _ => Reply::Value(INVALID_ARGUMENT, 0),
                }
            },
            NativeCall::DeviceGetPciInfo { device } => {
                let mut info = NativePciInfo {
                    bus_id: [0; 16],
                    domain: 0,
                    bus: 0,
                    device: 0,
                    pci_device_id: 0,
                    pci_sub_system_id: 0,
                };
                if !live {
                    return Reply::Pci(UNINITIALIZED, info);
                }
                match self.gpu(*device) {
                    Some(index) => {
                        info.bus_id = bus_id(index);
                        info.bus = index as u32 + 1;
                        info.pci_device_id = 0x1db4_10de;
                        info.pci_sub_system_id = 0x1214_10de;
                        Reply::Pci(SUCCESS, info)
                    },
                    None => Reply::Pci(INVALID_ARGUMENT, info),
                }
            },
            NativeCall::DeviceGetComputeRunningProcesses { device, capacity } => {
                let blank = NativeProcessInfo { pid: 0xdead, used_gpu_memory: 0xdead };
                let mut room = vec![blank; *capacity as usize];
                if !live {
                    return Reply::Processes(UNINITIALIZED, *capacity, room);
                }
                if self.gpu(*device).is_none() {
                    return Reply::Processes(INVALID_ARGUMENT, *capacity, room);
                }
                if room.len() < self.processes.len() {
                    return Reply::Processes(INSUFFICIENT_SIZE, self.processes.len() as u32, room);
                }
                room[..self.processes.len()].copy_from_slice(&self.processes);
                Reply::Processes(SUCCESS, self.processes.len() as u32, room)
            },
            NativeCall::DeviceGetTopologyNearestGpus { device, level, capacity } => {
                let mut room = vec![0xdeadusize; *capacity as usize];
                if !live {
                    return Reply::Handles(UNINITIALIZED, *capacity, room);
                }
                let own = match self.gpu(*device) {
                    Some(index) => index,
                    None => return Reply::Handles(INVALID_ARGUMENT, *capacity, room),
                };
                if *level != 50 {
                    return Reply::Handles(SUCCESS, 0, room);
                }
                let others: Vec<usize> = (0..self.gpus)
                    .filter(|index| *index != own)
                    .map(|index| FIRST_HANDLE + index)
                    .collect();
                if room.len() < others.len() {
                    return Reply::Handles(INSUFFICIENT_SIZE, others.len() as u32, room);
                }
                room[..others.len()].copy_from_slice(&others);
                Reply::Handles(SUCCESS, others.len() as u32, room)
            },
            other => panic!("the machine does not know {:?}", other),
        }
    }

    fn status(&self, call: NativeCall) -> u32 {
        match self.perform(call) {
            Reply::Status(status) => status,
            other => panic!("not a bare status: {:?}", other),
        }
    }

    fn value(&self, call: NativeCall) -> (u32, u32) {
        match self.perform(call) {
            Reply::Value(status, value) => (status, value),
            other => panic!("not a value: {:?}", other),
        }
    }

    fn text(&self, call: NativeCall) -> (u32, Vec<u8>) {
        match self.perform(call) {
            Reply::Text(status, buffer) => (status, buffer),
            other => panic!("not text: {:?}", other),
        }
    }

    fn handle(&self, call: NativeCall) -> (u32, usize) {
        match self.perform(call) {
            Reply::Handle(status, handle) => (status, handle),
            other => panic!("not a handle: {:?}", other),
        }
    }
}

// The operations as a caller sees them: describe the call, have the machine
// perform it, read what came back.

fn init(machine: &Machine) -> Result<NVML, Error> {
    NVML::init(machine.status(NVML::init_call()))
}

fn shutdown(machine: &Machine, nvml: NVML) -> Result<(), Error> {
    let status = machine.status(nvml.shutdown_call());
    nvml.shutdown(status)
}

/// What happens to a session that goes out of scope: it is shut down, and a
/// failure of that is fatal.
fn drop_session(machine: &Machine, nvml: NVML) {
    if let Err(error) = shutdown(machine, nvml) {
        panic!("Error returned by `nmvlShutdown()` in Drop implementation: {:?}", error);
    }
}

fn count_devices(machine: &Machine, nvml: &NVML) -> Result<u32, Error> {
    let (status, count) = machine.value(nvml.device_count_call());
    nvml.device_count(status, count)
}

fn sys_driver_version(machine: &Machine, nvml: &NVML) -> Result<String, Error> {
    let (status, buffer) = machine.text(nvml.sys_driver_version_call());
    nvml.sys_driver_version(status, &buffer)
}

fn sys_nvml_version(machine: &Machine, nvml: &NVML) -> Result<String, Error> {
    let (status, buffer) = machine.text(nvml.sys_nvml_version_call());
    nvml.sys_nvml_version(status, &buffer)
}

fn sys_process_name(
    machine: &Machine,
    nvml: &NVML,
    pid: u32,
    length: usize,
) -> Result<String, Error> {
    let (status, buffer) = machine.text(nvml.sys_process_name_call(pid, length));
    nvml.sys_process_name(status, &buffer)
}

fn lookup<'nvml>(machine: &Machine, nvml: &'nvml NVML, index: u32) -> Result<Device<'nvml>, Error> {
    let (status, handle) = machine.handle(nvml.device_by_index_call(index));
    nvml.device_by_index(status, handle)
}

fn name_of(machine: &Machine, device: &Device) -> Result<String, Error> {
    let (status, buffer) = machine.text(device.name_call());
    device.name(status, &buffer)
}

fn brand_of(machine: &Machine, device: &Device) -> Result<Brand, Error> {
    let (status, brand) = machine.value(device.brand_call());
    device.brand(status, brand)
}

fn index_of(machine: &Machine, device: &Device) -> Result<u32, Error> {
    let (status, index) = machine.value(device.index_call());
    device.index(status, index)
}

fn clock(machine: &Machine, device: &Device, clock_type: Clock) -> Result<u32, Error> {
    let (status, clock) = machine.value(device.clock_info_call(clock_type));
    device.clock_info(status, clock)
}

fn max_clock(machine: &Machine, device: &Device, clock_type: Clock) -> Result<u32, Error> {
    let (status, clock) = machine.value(device.max_clock_info_call(clock_type));
    device.max_clock_info(status, clock)
}

fn app_clock(machine: &Machine, device: &Device, clock_type: Clock) -> Result<u32, Error> {
    let (status, clock) = machine.value(device.applications_clock_call(clock_type));
    device.applications_clock(status, clock)
}

fn api_restricted(machine: &Machine, device: &Device, api: Api) -> Result<bool, Error> {
    let (status, state) = machine.value(device.is_api_restricted_call(api));
    device.is_api_restricted(status, state)
}

fn pci(machine: &Machine, device: &Device) -> Result<PciInfo, Error> {
    match machine.perform(device.pci_info_call()) {
        Reply::Pci(status, info) => device.pci_info(status, info),
        other => panic!("not PCI information: {:?}", other),
    }
}

fn compute_processes(
    machine: &Machine,
    device: &Device,
    size: usize,
) -> Result<Vec<ProcessInfo>, Error> {
    match machine.perform(device.running_compute_processes_call(size)) {
        Reply::Processes(status, count, room) => {
            device.running_compute_processes(status, count, &room)
        },
        other => panic!("not processes: {:?}", other),
    }
}

fn nearest_gpus<'nvml>(
    machine: &Machine,
    device: &Device<'nvml>,
    level: TopologyLevel,
    size: usize,
) -> Result<Vec<Device<'nvml>>, Error> {
    match machine.perform(device.topology_nearest_gpus_call(level, size)) {
        Reply::Handles(status, count, room) => device.topology_nearest_gpus(status, count, &room),
        other => panic!("not handles: {:?}", other),
    }
}

// Ways to run a test: in one session, in several sessions one after the
// other, and in one session that is shared.

fn single<R>(machine: &Machine, test: impl Fn(&NVML) -> R) {
    let nvml = init(machine).expect("init call failed");
    test(&nvml);
    drop_session(machine, nvml);
}

fn multi(machine: &Machine, count: usize, test: impl Fn(&NVML, usize)) {
    for i in 0..count {
        let nvml = init(machine).expect(&format!("init call{} failed", i));
        test(&nvml, i);
        drop_session(machine, nvml);
    }
}

fn multi_overlapping(machine: &Machine, count: usize, test: impl Fn(&NVML, usize)) {
    let mut sessions = Vec::new();
    for i in 0..count {
        sessions.push(init(machine).expect(&format!("init call{} failed", i)));
    }
    for (i, nvml) in sessions.iter().enumerate() {
        test(nvml, i);
    }
    for nvml in sessions {
        drop_session(machine, nvml);
    }
}

fn multi_arc(machine: &Machine, count: usize, test: impl Fn(Arc<NVML>, usize)) {
    let nvml = Arc::new(init(machine).expect("init call failed"));
    for i in 0..count {
        test(nvml.clone(), i);
    }
    let nvml = Arc::try_unwrap(nvml).expect("the session is still shared");
    drop_session(machine, nvml);
}

fn device_at<'nvml>(machine: &Machine, nvml: &'nvml NVML, index: usize) -> Device<'nvml> {
    lookup(machine, nvml, index as u32).expect("Could not get a device by index")
}

#[test]
fn topology() {
    let machine = Machine::new(3);
    let test = init(&machine).expect("init call failed");
    let device = lookup(&machine, &test, 0).expect("Could not get a device by index 0");

    let vec = nearest_gpus(&machine, &device, TopologyLevel::System, 8);
    let vec = vec.unwrap();
    println!("{:?}", vec);
    let handles: Vec<usize> = vec.iter().map(|device| device.c_device()).collect();
    assert_eq!(handles, vec![FIRST_HANDLE + 1, FIRST_HANDLE + 2]);
    assert_eq!(
        machine.calls.borrow().last(),
        Some(&NativeCall::DeviceGetTopologyNearestGpus {
            device: FIRST_HANDLE,
            level: 50,
            capacity: 8,
        })
    );
}

#[test]
fn running_compute_processes() {
    let machine = Machine::new(1);
    let test = init(&machine).expect("init call failed");
    let device = lookup(&machine, &test, 0).expect("Could not get a device by index 0");

    let processes = compute_processes(&machine, &device, 32).expect("You've failed");
    println!("{:?}", processes);
    assert_eq!(
        processes,
        vec![
            ProcessInfo { pid: 4242, used_gpu_memory: UsedGpuMemory::Used(1 << 20) },
            ProcessInfo { pid: 4243, used_gpu_memory: UsedGpuMemory::Unavailable },
            ProcessInfo { pid: 4244, used_gpu_memory: UsedGpuMemory::Used(0) },
        ]
    );
}

#[test]
fn name() {
    let machine = Machine::new(1);
    single(&machine, |nvml| {
        let device = device_at(&machine, nvml, 0);
        let name = name_of(&machine, &device).expect("Could not get name");
        assert_eq!(name, "Tesla V100 #0");
        name
    });
}

#[test]
fn name_multiple() {
    let machine = Machine::new(3);
    multi(&machine, 3, |nvml, i| {
        let device = device_at(&machine, nvml, i);
        let name = name_of(&machine, &device).expect(&format!("Could not get name{}", i));
        assert_eq!(name, format!("Tesla V100 #{}", i));
    })
}

#[test]
fn name_multiple_threads() {
    let machine = Machine::new(3);
    multi_overlapping(&machine, 3, |nvml, i| {
        let device = device_at(&machine, nvml, i);
        let name = name_of(&machine, &device).expect(&format!("Could not get name{}", i));
        assert_eq!(name, format!("Tesla V100 #{}", i));
    });
}

#[test]
fn name_multiple_threads_arc() {
    let machine = Machine::new(3);
    multi_arc(&machine, 3, |nvml, i| {
        let device = device_at(&machine, &nvml, i);
        let name = name_of(&machine, &device).expect(&format!("Could not get name{}", i));
        assert_eq!(name, format!("Tesla V100 #{}", i));
    });
}

#[test]
fn brand() {
    let machine = Machine::new(1);
    single(&machine, |nvml| {
        let device = device_at(&machine, nvml, 0);
        let brand = brand_of(&machine, &device).expect("Could not get brand");
        assert_eq!(brand, Brand::Tesla);
        brand
    });
}

#[test]
fn brand_multiple() {
    let machine = Machine::new(3);
    multi(&machine, 3, |nvml, i| {
        let device = device_at(&machine, nvml, i);
        let brand = brand_of(&machine, &device).expect(&format!("Could not get brand{}", i));
        assert_eq!(brand, Brand::Tesla);
    });
}

#[test]
fn brand_multiple_threads() {
    let machine = Machine::new(3);
    multi_overlapping(&machine, 3, |nvml, i| {
        let device = device_at(&machine, nvml, i);
        let brand = brand_of(&machine, &device).expect(&format!("Could not get brand{}", i));
        assert_eq!(brand, Brand::Tesla);
    });
}

#[test]
fn brand_multiple_threads_arc() {
    let machine = Machine::new(3);
    multi_arc(&machine, 3, |nvml, i| {
        let device = device_at(&machine, &nvml, i);
        let brand = brand_of(&machine, &device).expect(&format!("Could not get brand{}", i));
        assert_eq!(brand, Brand::Tesla);
    });
}

fn all_clocks(machine: &Machine, device: &Device, i: usize) {
    let gfx_clock =
        clock(machine, device, Clock::Graphics).expect(&format!("Could not get gfx clock{}", i));
    let mem_clock =
        clock(machine, device, Clock::Memory).expect(&format!("Could not get mem clock{}", i));
    let sm_clock =
        clock(machine, device, Clock::SM).expect(&format!("Could not get sm clock{}", i));
    let vid_clock =
        clock(machine, device, Clock::Video).expect(&format!("Could not get vid clock{}", i));
    assert_eq!((gfx_clock, sm_clock, mem_clock, vid_clock), (1000, 1100, 1200, 1300));
}

#[test]
fn clock_info() {
    let machine = Machine::new(1);
    single(&machine, |nvml| {
        let device = device_at(&machine, nvml, 0);
        let gfx_clock = clock(&machine, &device, Clock::Graphics).expect("Could not get gfx clock");
        let mem_clock = clock(&machine, &device, Clock::Memory).expect("Could not get mem clock");
        let sm_clock = clock(&machine, &device, Clock::SM).expect("Could not get sm clock");
        let vid_clock = clock(&machine, &device, Clock::Video).expect("Could not get vid clock");

        println!(
            "\n\n\tGraphics Clock: {:?} MHz \
             \n\tMemory Clock: {:?} MHz \
             \n\tStreaming Multiprocessor Clock: {:?} MHz \
             \n\tVideo Clock: {:?} MHz
             \n\t... ",
            gfx_clock, mem_clock, sm_clock, vid_clock
        );
        assert_eq!((gfx_clock, sm_clock, mem_clock, vid_clock), (1000, 1100, 1200, 1300));
    });
}

#[test]
fn clock_info_multiple() {
    let machine = Machine::new(1);
    multi(&machine, 3, |nvml, i| {
        let device = device_at(&machine, nvml, 0);
        all_clocks(&machine, &device, i);
    });
}

#[test]
fn clock_info_multiple_threads() {
    let machine = Machine::new(1);
    multi_overlapping(&machine, 3, |nvml, i| {
        let device = device_at(&machine, nvml, 0);
        all_clocks(&machine, &device, i);
    });
}

#[test]
fn clock_info_multiple_threads_arc() {
    let machine = Machine::new(1);
    multi_arc(&machine, 3, |nvml, i| {
        let device = device_at(&machine, &nvml, 0);
        all_clocks(&machine, &device, i);
    });
}

fn all_max_clocks(machine: &Machine, device: &Device, i: usize) {
    let max_gfx_clock = max_clock(machine, device, Clock::Graphics)
        .expect(&format!("Could not get gfx clock{}", i));
    let max_mem_clock =
        max_clock(machine, device, Clock::Memory).expect(&format!("Could not get mem clock{}", i));
    let max_sm_clock =
        max_clock(machine, device, Clock::SM).expect(&format!("Could not get sm clock{}", i));
    let max_vid_clock =
        max_clock(machine, device, Clock::Video).expect(&format!("Could not get vid clock{}", i));
    assert_eq!(
        (max_gfx_clock, max_sm_clock, max_mem_clock, max_vid_clock),
        (2000, 2100, 2200, 2300)
    );
}

#[test]
fn max_clock_info() {
    let machine = Machine::new(1);
    single(&machine, |nvml| {
        let device = device_at(&machine, nvml, 0);
        let max_gfx_clock =
            max_clock(&machine, &device, Clock::Graphics).expect("Could not get gfx clock");
        let max_mem_clock =
            max_clock(&machine, &device, Clock::Memory).expect("Could not get mem clock");
        let max_sm_clock = max_clock(&machine, &device, Clock::SM).expect("Could not get sm clock");
        let max_vid_clock =
            max_clock(&machine, &device, Clock::Video).expect("Could not get vid clock");

        println!(
            "\n\n\tMax Graphics Clock: {:?} MHz \
             \n\tMax Memory Clock: {:?} MHz \
             \n\tMax Streaming Multiprocessor Clock: {:?} MHz \
             \n\tMax Video Clock: {:?} MHz
             \n\t... ",
            max_gfx_clock, max_mem_clock, max_sm_clock, max_vid_clock
        );
        assert_eq!(
            (max_gfx_clock, max_sm_clock, max_mem_clock, max_vid_clock),
            (2000, 2100, 2200, 2300)
        );
    });
}

#[test]
fn max_clock_info_multiple() {
    let machine = Machine::new(1);
    multi(&machine, 3, |nvml, i| {
        let device = device_at(&machine, nvml, 0);
        all_max_clocks(&machine, &device, i);
    })
}

#[test]
fn max_clock_info_multiple_threads() {
    let machine = Machine::new(1);
    multi_overlapping(&machine, 3, |nvml, i| {
        let device = device_at(&machine, nvml, 0);
        all_max_clocks(&machine, &device, i);
    });
}

#[test]
fn max_clock_info_multiple_threads_arc() {
    let machine = Machine::new(1);
    multi_arc(&machine, 3, |nvml, i| {
        let device = device_at(&machine, &nvml, 0);
        all_max_clocks(&machine, &device, i);
    });
}

#[test]
fn is_api_restricted() {
    let machine = Machine::new(1);
    let test = init(&machine).expect("init call failed");
    let device = lookup(&machine, &test, 0).expect("Could not get a device by index 0");
    let is_restricted = api_restricted(&machine, &device, Api::ApplicationClocks)
        .expect("Failed to check ApplicationClocks");
    let is_restricted2 = api_restricted(&machine, &device, Api::AutoBoostedClocks)
        .expect("Failed to check AutoBoostedClocks");
    assert!(is_restricted);
    assert!(!is_restricted2);
}

#[test]
fn pci_info() {
    let machine = Machine::new(1);
    let test = init(&machine).expect("init call failed");
    let device = lookup(&machine, &test, 0).expect("Could not get a device by index 0");
    let pci_info = pci(&machine, &device).expect("Could not get pci info");
    assert_eq!(
        pci_info,
        PciInfo {
            bus: 1,
            bus_id: "0000:01:00.0".to_string(),
            device: 0,
            domain: 0,
            pci_device_id: 0x1db4_10de,
            pci_sub_system_id: 0x1214_10de,
        }
    );
}

#[test]
fn index() {
    let machine = Machine::new(1);
    let test = init(&machine).expect("init call failed");
    let device = lookup(&machine, &test, 0).expect("Could not get a device by index 0");
    let index = index_of(&machine, &device).expect("Could not get device index");
    assert_eq!(index, 0);
}

#[test]
fn applications_clock() {
    let machine = Machine::new(1);
    let test = init(&machine).expect("init call failed");
    let device = lookup(&machine, &test, 0).expect("Could not get a device by index 0");
    let clock =
        app_clock(&machine, &device, Clock::Graphics).expect("Could not get applications clock");
    assert_eq!(clock, 1500);
}

#[test]
fn init_drop() {
    let machine = Machine::new(1);
    let test = init(&machine).expect("init call failed");
    drop_session(&machine, test);
    assert_eq!(machine.initializations.get(), 0);
}

#[test]
fn init_shutdown() {
    let machine = Machine::new(1);
    let nvml = init(&machine).expect("init call failed");
    shutdown(&machine, nvml).expect("shutdown failed");
    assert_eq!(machine.initializations.get(), 0);
}

#[test]
fn init_drop_multiple() {
    let machine = Machine::new(1);
    let test1 = init(&machine).expect("init call1 failed");
    let test2 = init(&machine).expect("init call2 failed");
    let test3 = init(&machine).expect("init call3 failed");
    assert_eq!(machine.initializations.get(), 3);
    drop_session(&machine, test3);
    drop_session(&machine, test2);
    drop_session(&machine, test1);
    assert_eq!(machine.initializations.get(), 0);
}

#[test]
fn init_shutdown_multiple() {
    let machine = Machine::new(1);
    for i in 0..3 {
        let nvml = init(&machine).expect(&format!("init call{} failed", i));
        shutdown(&machine, nvml).expect(&format!("shutdown{} failed", i));
    }
    assert_eq!(machine.initializations.get(), 0);
}

#[test]
fn init_drop_multiple_threads() {
    let machine = Machine::new(1);
    let test1 = init(&machine).expect("init call1 failed");
    let test2 = init(&machine).expect("init call2 failed");
    drop_session(&machine, test1);
    let test3 = init(&machine).expect("init call3 failed");
    drop_session(&machine, test3);
    drop_session(&machine, test2);
    assert_eq!(machine.initializations.get(), 0);
}

#[test]
fn init_shutdown_multiple_threads() {
    let machine = Machine::new(1);
    let mut sessions = Vec::new();
    for i in 0..3 {
        sessions.push(init(&machine).expect(&format!("init call{} failed", i)));
    }
    for (i, nvml) in sessions.into_iter().enumerate() {
        shutdown(&machine, nvml).expect(&format!("shutdown{} failed", i));
    }
    assert_eq!(machine.initializations.get(), 0);
}

#[test]
fn device_count() {
    let machine = Machine::new(1);
    single(&machine, |nvml| {
        let count = count_devices(&machine, nvml).expect("Could not get device count");
        assert_eq!(count, 1);
    });
}

#[test]
fn device_count_multiple() {
    let machine = Machine::new(1);
    multi(&machine, 3, |nvml, i| {
        let count =
            count_devices(&machine, nvml).expect(&format!("Could not get device count{}", i));
        assert_eq!(count, 1);
    });
}

#[test]
fn device_count_multiple_threads() {
    let machine = Machine::new(1);
    multi_overlapping(&machine, 3, |nvml, i| {
        let count =
            count_devices(&machine, nvml).expect(&format!("Could not get device count{}", i));
        assert_eq!(count, 1);
    });
}

#[test]
fn device_count_multiple_threads_arc() {
    let machine = Machine::new(1);
    multi_arc(&machine, 3, |nvml, i| {
        let count =
            count_devices(&machine, &nvml).expect(&format!("Could not get device count{}", i));
        assert_eq!(count, 1);
    });
}

#[test]
fn driver_version() {
    let machine = Machine::new(1);
    let test = init(&machine).expect("init call failed");
    let version = sys_driver_version(&machine, &test).expect("Could not get driver version");
    assert_eq!(version, "375.26");
}

#[test]
fn nvml_version() {
    let machine = Machine::new(1);
    let test = init(&machine).expect("init call failed");
    let version = sys_nvml_version(&machine, &test).expect("Could not get NVML version");
    assert_eq!(version, "8.375.26");
}

#[test]
fn process_name() {
    let machine = Machine::new(1);
    let test = init(&machine).expect("init call failed");
    let name = sys_process_name(&machine, &test, 25121, 80).expect("Could not get name for PID");
    assert_eq!(name, "/usr/bin/process-25121");
}

#[test]
fn device_by_index() {
    let machine = Machine::new(1);
    single(&machine, |nvml| {
        let device = device_at(&machine, nvml, 0);
        assert_eq!(device.c_device(), FIRST_HANDLE);
    });
}

#[test]
fn device_by_index_multiple() {
    let machine = Machine::new(3);
    multi(&machine, 3, |nvml, i| {
        let device = device_at(&machine, nvml, i);
        assert_eq!(device.c_device(), FIRST_HANDLE + i);
    });
}

#[test]
fn device_by_index_multiple_threads() {
    let machine = Machine::new(3);
    multi_overlapping(&machine, 3, |nvml, i| {
        let device = device_at(&machine, nvml, i);
        assert_eq!(device.c_device(), FIRST_HANDLE + i);
    });
}

#[test]
fn device_by_index_multiple_threads_arc() {
    let machine = Machine::new(3);
    multi_arc(&machine, 3, |nvml, i| {
        let device = device_at(&machine, &nvml, i);
        assert_eq!(device.c_device(), FIRST_HANDLE + i);
    });
}

// Beyond single operations.

#[test]
fn device_by_index_past_the_last_is_invalid_argument() {
    let machine = Machine::new(1);
    let nvml = init(&machine).expect("init call failed");
    assert_eq!(
        lookup(&machine, &nvml, 1),
        Err(Error { kind: ErrorKind::InvalidArgument, cleanup: None })
    );
}

#[test]
fn sessions_are_counted_and_a_call_after_the_last_shutdown_is_uninitialized() {
    let machine = Machine::new(1);
    let first = init(&machine).expect("first init failed");
    let second = init(&machine).expect("second init failed");
    assert_eq!(machine.initializations.get(), 2);

    shutdown(&machine, first).expect("first shutdown failed");
    // One session is left: NVML still answers.
    assert_eq!(count_devices(&machine, &second), Ok(1));
    let handle = lookup(&machine, &second, 0).expect("no device").c_device();
    shutdown(&machine, second).expect("second shutdown failed");
    assert_eq!(machine.initializations.get(), 0);

    // No session is left. The lifetimes let no device of an ended
    // session through, so the call is described for a handle that was kept
    // as a number; NVML answers `Uninitialized`, and that is what is read.
    let (status, buffer) =
        machine.text(NativeCall::DeviceGetName { device: handle, length: 64 });
    assert_eq!(status, UNINITIALIZED);
    let later = init(&machine).expect("third init failed");
    let device = Device::new(&later, handle);
    assert_eq!(
        device.name(status, &buffer),
        Err(Error { kind: ErrorKind::Uninitialized, cleanup: None })
    );
    // A shutdown too many is an error that the explicit path hands on.
    shutdown(&machine, later).expect("third shutdown failed");
    assert_eq!(
        nvml_wrapper::errors::nvml_try(machine.status(NativeCall::Shutdown)),
        Err(Error { kind: ErrorKind::Uninitialized, cleanup: None })
    );
}

#[test]
fn a_query_asked_twice_gives_the_same_twice() {
    let machine = Machine::new(2);
    let nvml = init(&machine).expect("init call failed");
    let device = device_at(&machine, &nvml, 1);
    let first = name_of(&machine, &device);
    let second = name_of(&machine, &device);
    assert_eq!(first, Ok("Tesla V100 #1".to_string()));
    assert_eq!(first, second);
    assert_eq!(brand_of(&machine, &device), brand_of(&machine, &device));
    assert_eq!(pci(&machine, &device), pci(&machine, &device));
    // Each query made its call again: nothing was kept from the first.
    assert_eq!(machine.count_of(|call| matches!(call, NativeCall::DeviceGetName { .. })), 2);
    assert_eq!(machine.count_of(|call| matches!(call, NativeCall::DeviceGetBrand { .. })), 2);
}

#[test]
fn room_for_ten_and_three_counted_gives_three() {
    let machine = Machine::new(1);
    let nvml = init(&machine).expect("init call failed");
    let device = device_at(&machine, &nvml, 0);
    let processes = compute_processes(&machine, &device, 10).expect("room for ten is enough");
    assert_eq!(processes.len(), 3);
    assert_eq!(processes[0].pid, 4242);
    assert_eq!(processes[2].pid, 4244);
}

#[test]
fn too_little_room_is_insufficient_size_and_gives_nothing() {
    let machine = Machine::new(1);
    let nvml = init(&machine).expect("init call failed");
    let device = device_at(&machine, &nvml, 0);
    assert_eq!(
        compute_processes(&machine, &device, 2),
        Err(Error { kind: ErrorKind::InsufficientSize, cleanup: None })
    );
    let machine = Machine::new(4);
    let nvml = init(&machine).expect("init call failed");
    let device = device_at(&machine, &nvml, 0);
    let nearest = nearest_gpus(&machine, &device, TopologyLevel::System, 2);
    assert_eq!(nearest, Err(Error { kind: ErrorKind::InsufficientSize, cleanup: None }));
}

#[test]
fn process_name_is_cut_to_the_length() {
    let machine = Machine::new(1);
    let nvml = init(&machine).expect("init call failed");
    assert_eq!(sys_process_name(&machine, &nvml, 7, 9), Ok("/usr/bin".to_string()));
    assert_eq!(
        sys_process_name(&machine, &nvml, 7, 0),
        Err(Error { kind: ErrorKind::InvalidArgument, cleanup: None })
    );
}
