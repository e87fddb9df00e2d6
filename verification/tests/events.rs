//! Event types, event sets, and the registration of a device with a set.

use nvml_wrapper::device::Device;
use nvml_wrapper::errors::{Error, ErrorKind};
use nvml_wrapper::event::{EventSet, EventTypes, Registration};
use nvml_wrapper::native;
use nvml_wrapper::native::{NativeCall, NativeEventData};
use nvml_wrapper::NVML;

const SET: usize = 0x5e7;
const DEVICE: usize = 0xd0;

fn plain(kind: ErrorKind) -> Error {
    Error { kind, cleanup: None }
}

/// A simulated NVML of which only the statuses matter: what it returns for a
/// registration and for destroying a set, and how often it was asked to.
struct Machine {
    registration: u32,
    destruction: u32,
    registered: usize,
    destroyed: Vec<usize>,
}

impl Machine {
    fn new(registration: u32, destruction: u32) -> Machine {
        Machine { registration, destruction, registered: 0, destroyed: Vec::new() }
    }

    fn perform(&mut self, call: NativeCall) -> u32 {
        match call {
            NativeCall::DeviceRegisterEvents { .. } => {
                self.registered += 1;
                self.registration
            },
            NativeCall::EventSetFree { set } => {
                self.destroyed.push(set);
                self.destruction
            },
            other => panic!("the machine does not know {:?}", other),
        }
    }
}

/// A registration from beginning to end, as a caller runs it.
fn register<'nvml>(
    machine: &mut Machine,
    device: &Device<'nvml>,
    events: &EventTypes,
    set: EventSet<'nvml>,
) -> Result<EventSet<'nvml>, Error> {
    let status = machine.perform(device.register_events_call(events, &set));
    match device.register_events(set, status) {
        Registration::Registered(set) => Ok(set),
        Registration::Refused(error, _set) => Err(error),
        Registration::Undefined(set) => {
            let status = machine.perform(set.destroy_call());
            Err(device.register_events_failed(set, status))
        },
    }
}

#[test]
fn a_registration_that_succeeds_hands_the_set_back() {
    let nvml = NVML::init(0).expect("status 0 is success");
    let device = Device::new(&nvml, DEVICE);
    let mut machine = Machine::new(0, 0);
    let set = register(&mut machine, &device, &EventTypes::all(), EventSet::new(&nvml, SET))
        .expect("registered");
    assert_eq!(set.c_set(), SET);
    assert_eq!(machine.registered, 1);
    assert!(machine.destroyed.is_empty());
}

#[test]
fn a_registration_that_fails_unknown_destroys_the_set_once_and_is_unknown() {
    let nvml = NVML::init(0).expect("status 0 is success");
    let device = Device::new(&nvml, DEVICE);
    let mut machine = Machine::new(999, 0);
    let result = register(&mut machine, &device, &EventTypes::all(), EventSet::new(&nvml, SET));
    assert_eq!(result, Err(plain(ErrorKind::Unknown)));
    assert_eq!(machine.registered, 1);
    assert_eq!(machine.destroyed, vec![SET]);
}

#[test]
fn a_registration_that_fails_with_a_code_of_no_name_destroys_the_set_too() {
    let nvml = NVML::init(0).expect("status 0 is success");
    let device = Device::new(&nvml, DEVICE);
    for code in [5u32, 12, 13, 18, 20, 1000, u32::MAX] {
        let mut machine = Machine::new(code, 0);
        let result = register(&mut machine, &device, &EventTypes::all(), EventSet::new(&nvml, SET));
        assert_eq!(result, Err(plain(ErrorKind::Unknown)), "code {}", code);
        assert_eq!(machine.destroyed, vec![SET], "code {}", code);
    }
}

#[test]
fn a_cleanup_that_fails_too_is_chained_onto_the_unknown_error() {
    let nvml = NVML::init(0).expect("status 0 is success");
    let device = Device::new(&nvml, DEVICE);
    let mut machine = Machine::new(999, 1);
    let result = register(&mut machine, &device, &EventTypes::all(), EventSet::new(&nvml, SET));
    assert_eq!(
        result,
        Err(Error { kind: ErrorKind::Unknown, cleanup: Some(ErrorKind::Uninitialized) })
    );
    assert_eq!(machine.destroyed, vec![SET]);

    let mut machine = Machine::new(999, 999);
    let result = register(&mut machine, &device, &EventTypes::all(), EventSet::new(&nvml, SET));
    assert_eq!(result, Err(Error { kind: ErrorKind::Unknown, cleanup: Some(ErrorKind::Unknown) }));
    assert_eq!(machine.destroyed, vec![SET]);
}

#[test]
fn a_registration_that_is_refused_leaves_the_set_alone() {
    let nvml = NVML::init(0).expect("status 0 is success");
    let device = Device::new(&nvml, DEVICE);
    let refusals = [
        (1u32, ErrorKind::Uninitialized),
        (2, ErrorKind::InvalidArgument),
        (3, ErrorKind::NotSupported),
        (15, ErrorKind::GpuIsLost),
    ];
    for (code, kind) in refusals {
        let mut machine = Machine::new(code, 0);
        let set = EventSet::new(&nvml, SET);
        let status = machine.perform(device.register_events_call(&EventTypes::all(), &set));
        match device.register_events(set, status) {
            Registration::Refused(error, set) => {
                assert_eq!(error, plain(kind));
                assert_eq!(set.c_set(), SET);
            },
            other => panic!("not refused: {:?}", other),
        }
        assert!(machine.destroyed.is_empty());

        let result = register(&mut machine, &device, &EventTypes::all(), EventSet::new(&nvml, SET));
        assert_eq!(result, Err(plain(kind)));
        assert!(machine.destroyed.is_empty());
    }
}

#[test]
fn the_three_ways_a_registration_can_go() {
    let nvml = NVML::init(0).expect("status 0 is success");
    let device = Device::new(&nvml, DEVICE);
    assert_eq!(
        device.register_events(EventSet::new(&nvml, SET), 0),
        Registration::Registered(EventSet::new(&nvml, SET))
    );
    assert_eq!(
        device.register_events(EventSet::new(&nvml, SET), 999),
        Registration::Undefined(EventSet::new(&nvml, SET))
    );
    assert_eq!(
        device.register_events(EventSet::new(&nvml, SET), 3),
        Registration::Refused(plain(ErrorKind::NotSupported), EventSet::new(&nvml, SET))
    );
}

#[test]
fn the_registration_call_names_the_device_the_bits_and_the_set() {
    let nvml = NVML::init(0).expect("status 0 is success");
    let device = Device::new(&nvml, DEVICE);
    let set = EventSet::new(&nvml, SET);
    let events = EventTypes::from_bits(0x9).expect("two event types");
    assert_eq!(
        device.register_events_call(&events, &set),
        NativeCall::DeviceRegisterEvents { device: DEVICE, event_types: 0x9, set: SET }
    );
    assert_eq!(set.destroy_call(), NativeCall::EventSetFree { set: SET });
    assert_eq!(set.wait_call(250), NativeCall::EventSetWait { set: SET, timeout_ms: 250 });
}

#[test]
fn destroying_a_set_reads_the_status() {
    let nvml = NVML::init(0).expect("status 0 is success");
    assert_eq!(EventSet::new(&nvml, SET).destroy(0), Ok(()));
    assert_eq!(EventSet::new(&nvml, SET).destroy(1), Err(plain(ErrorKind::Uninitialized)));
    assert_eq!(EventSet::new(&nvml, SET).destroy(2), Err(plain(ErrorKind::InvalidArgument)));
    assert_eq!(EventSet::new(&nvml, SET).destroy(999), Err(plain(ErrorKind::Unknown)));
}

#[test]
fn waiting_gives_the_event_or_times_out() {
    let nvml = NVML::init(0).expect("status 0 is success");
    let set = EventSet::new(&nvml, SET);
    let event = NativeEventData { device: DEVICE, event_type: 0x8, event_data: 43 };
    let data = set.wait(0, event).expect("an event");
    assert_eq!(data.device.c_device(), DEVICE);
    assert_eq!(data.event_type, native::NVML_EVENT_TYPE_XID_CRITICAL_ERROR);
    assert_eq!(data.event_data, 43);
    assert_eq!(set.wait(10, event), Err(plain(ErrorKind::TimedOut)));
    assert_eq!(set.wait(15, event), Err(plain(ErrorKind::GpuIsLost)));
}

#[test]
fn event_types_are_made_of_known_bits_only() {
    for bits in 0..=0x1fu64 {
        let types = EventTypes::from_bits(bits).expect("known bits");
        assert_eq!(types.bits(), bits);
    }
    assert_eq!(EventTypes::from_bits(0x20), None);
    assert_eq!(EventTypes::from_bits(0x21), None);
    assert_eq!(EventTypes::from_bits(0x100), None);
    assert_eq!(EventTypes::from_bits(1 << 63), None);
    assert_eq!(EventTypes::from_bits(u64::MAX), None);
    assert_eq!(EventTypes::all().bits(), 0x1f);
    assert_eq!(
        EventTypes::all().bits(),
        native::NVML_EVENT_TYPE_SINGLE_BIT_ECC_ERROR
            | native::NVML_EVENT_TYPE_DOUBLE_BIT_ECC_ERROR
            | native::NVML_EVENT_TYPE_PSTATE
            | native::NVML_EVENT_TYPE_XID_CRITICAL_ERROR
            | native::NVML_EVENT_TYPE_CLOCK
    );
}

#[test]
fn supported_event_types_are_read_from_the_bits() {
    let nvml = NVML::init(0).expect("status 0 is success");
    let device = Device::new(&nvml, DEVICE);
    assert_eq!(
        device.supported_event_types_call(),
        NativeCall::DeviceGetSupportedEventTypes { device: DEVICE }
    );
    assert_eq!(device.supported_event_types(0, 0x1b).map(|types| types.bits()), Ok(0x1b));
    assert_eq!(device.supported_event_types(0, 0).map(|types| types.bits()), Ok(0));
    assert_eq!(
        device.supported_event_types(0, 0x40),
        Err(plain(ErrorKind::UnrecognizedEnumVariant))
    );
    assert_eq!(device.supported_event_types(3, 0x1b), Err(plain(ErrorKind::NotSupported)));
    assert_eq!(device.supported_event_types(3, 0x40), Err(plain(ErrorKind::NotSupported)));
}
