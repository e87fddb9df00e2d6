//! Event sets, and the event types that a device can be registered for.

use vstd::prelude::*;
use core::marker::PhantomData;
use crate::buffers::view_result;
use crate::errors::{after, nvml_try, status_kind, status_result, Error, ErrorKind};
use crate::native;
use crate::native::{NativeCall, NativeEventData};
use crate::struct_wrappers::EventData;
use crate::NVML;

verus! {

/// A set of event types, one bit each.
#[derive(Clone, Copy, Debug, PartialEq, Eq, Hash)]
pub struct EventTypes {
    bits: u64,
}

impl View for EventTypes {
    type V = u64;

    /// The bits of the event types in the set.
    closed spec fn view(&self) -> u64 {
        self.bits
    }
}

impl EventTypes {
    /// Whether every bit of `bits` is the bit of an event type.
    pub open spec fn known(bits: u64) -> bool {
        bits & !native::NVML_EVENT_TYPE_ALL == 0
    }

    #[verifier::type_invariant]
    spec fn only_known_bits(self) -> bool {
        EventTypes::known(self.bits)
    }

    /// The event types have the five lowest bits: bits are known exactly
    /// when they make a number below 32.
    pub proof fn lemma_known_bits(bits: u64)
        ensures
            EventTypes::known(bits) <==> bits <= native::NVML_EVENT_TYPE_ALL,
            native::NVML_EVENT_TYPE_ALL == native::NVML_EVENT_TYPE_SINGLE_BIT_ECC_ERROR
                | native::NVML_EVENT_TYPE_DOUBLE_BIT_ECC_ERROR | native::NVML_EVENT_TYPE_PSTATE
                | native::NVML_EVENT_TYPE_XID_CRITICAL_ERROR | native::NVML_EVENT_TYPE_CLOCK,
    {
        assert((bits & !0x1fu64 == 0) <==> bits <= 0x1fu64) by (bit_vector);
        assert(0x1fu64 == 0x1u64 | 0x2u64 | 0x4u64 | 0x8u64 | 0x10u64) by (bit_vector);
    }

    /// The set of the event types whose bits are set in `bits`; `None`
    /// where `bits` holds a bit of no event type.
    pub fn from_bits(bits: u64) -> (types: Option<EventTypes>)
        ensures
            EventTypes::known(bits) ==> (types matches Some(set) && set@ == bits),
            !EventTypes::known(bits) ==> types is None,
    {
        if bits & !native::NVML_EVENT_TYPE_ALL == 0 {
            Some(EventTypes { bits })
        } else {
            None
        }
    }

    /// Every event type.
    pub fn all() -> (types: EventTypes)
        ensures
            types@ == native::NVML_EVENT_TYPE_ALL,
    {
        assert(native::NVML_EVENT_TYPE_ALL & !native::NVML_EVENT_TYPE_ALL == 0) by (bit_vector);
        EventTypes { bits: native::NVML_EVENT_TYPE_ALL }
    }

    /// The bits of the event types in this set.
    pub fn bits(&self) -> (bits: u64)
        ensures
            bits == self@,
            EventTypes::known(bits),
    {
        proof {
            use_type_invariant(self);
        }
        self.bits
    }
}

/// The event types that the bits stand for which NVML wrote;
/// `UnrecognizedEnumVariant` where a bit among them is the bit of no event
/// type.
pub open spec fn event_types_of(flags: u64) -> Result<u64, Error> {
    if EventTypes::known(flags) {
        Ok(flags)
    } else {
        Err(Error::of(ErrorKind::UnrecognizedEnumVariant))
    }
}

/// A set of events of NVML, which collects the events of the devices that are
/// registered with it.
///
/// An `EventSet` comes from a session and borrows it. NVML allocates it, and
/// it stays allocated until it is destroyed.
#[derive(Debug, PartialEq, Eq)]
pub struct EventSet<'nvml> {
    set: usize,
    _phantom: PhantomData<&'nvml NVML>,
}

impl<'nvml> View for EventSet<'nvml> {
    type V = usize;

    /// The handle by which NVML knows the set.
    closed spec fn view(&self) -> usize {
        self.set
    }
}

impl<'nvml> EventSet<'nvml> {
    /// The event set of session `nvml` that NVML knows by `set`.
    pub fn new(nvml: &'nvml NVML, set: usize) -> (created: EventSet<'nvml>)
        ensures
            created@ == set,
    {
        EventSet { set, _phantom: PhantomData }
    }

    /// The handle by which NVML knows this set. It is only good for handing
    /// back to NVML, and only while the set lasts.
    pub fn c_set(&self) -> (set: usize)
        ensures
            set == self@,
    {
        self.set
    }

    /// What to hand to NVML for [`EventSet::wait`]: `nvmlEventSetWait` and
    /// its arguments, without the place that it writes to.
    pub fn wait_call(&self, timeout_ms: u32) -> (call: NativeCall)
        ensures
            call == (NativeCall::EventSetWait { set: self@, timeout_ms }),
    {
        NativeCall::EventSetWait { set: self.set, timeout_ms }
    }

    /// The next event of a device that is registered with this set, waited
    /// for during at most `timeout_ms` milliseconds.
    ///
    /// Reads what `nvmlEventSetWait` returned. A status other than success
    /// is the error, and nothing that the call wrote is looked at; `TimedOut`
    /// is the status of a wait that no event ended. On success the result
    /// is built from the struct that it filled in.
    pub fn wait(&self, status: u32, data: NativeEventData) -> (result: Result<
        EventData<'nvml>,
        Error,
    >)
        ensures
            view_result(result) == after(status, Ok(EventData::of(data))),
    {
        nvml_try(status)?;
        Ok(EventData::bound(data))
    }

    /// What to hand to NVML for [`EventSet::destroy`]: `nvmlEventSetFree`
    /// with the set.
    pub fn destroy_call(&self) -> (call: NativeCall)
        ensures
            call == (NativeCall::EventSetFree { set: self@ }),
    {
        NativeCall::EventSetFree { set: self.set }
    }

    /// Ends this set, and reads the status that `nvmlEventSetFree` returned
    /// for it.
    pub fn destroy(self, status: u32) -> (result: Result<(), Error>)
        ensures
            result == status_result(status),
    {
        nvml_try(status)
    }
}

/// How the registration of a device with an event set went. The set is
/// handed back in every case.
#[derive(Debug, PartialEq, Eq)]
pub enum Registration<'nvml> {
    /// The device is registered, and the set is there for further use.
    Registered(EventSet<'nvml>),
    /// NVML refused the registration and left the set as it was.
    Refused(Error, EventSet<'nvml>),
    /// NVML failed with the status `Unknown` and left the set in an undefined
    /// state: the set has to be destroyed before anything else is done.
    Undefined(EventSet<'nvml>),
}

/// `Registration` with the set as its handle.
pub enum RegistrationView {
    Registered(usize),
    Refused(Error, usize),
    Undefined(usize),
}

impl<'nvml> View for Registration<'nvml> {
    type V = RegistrationView;

    open spec fn view(&self) -> RegistrationView {
        match *self {
            Registration::Registered(set) => RegistrationView::Registered(set@),
            Registration::Refused(error, set) => RegistrationView::Refused(error, set@),
            Registration::Undefined(set) => RegistrationView::Undefined(set@),
        }
    }
}

impl<'nvml> Registration<'nvml> {
    /// How the registration with the set `set` went that returned `status`:
    /// the set is undefined exactly when the status is `Unknown`, be it the
    /// code of that name or a code that is not known.
    pub open spec fn of(set: usize, status: u32) -> RegistrationView {
        match status_kind(status) {
            None => RegistrationView::Registered(set),
            Some(ErrorKind::Unknown) => RegistrationView::Undefined(set),
            Some(kind) => RegistrationView::Refused(Error::of(kind), set),
        }
    }

    /// A registration leaves its set undefined, and so to be destroyed,
    /// exactly when it returned the status `Unknown`; and whatever it
    /// returned, the set that comes back is the set that went in.
    pub proof fn lemma_undefined_on_unknown_alone(set: usize, status: u32)
        ensures
            Registration::of(set, status) is Undefined <==> status_kind(status) == Some(
                ErrorKind::Unknown,
            ),
            Registration::of(set, status) is Registered <==> status == native::NVML_SUCCESS,
            match Registration::of(set, status) {
                RegistrationView::Registered(back) => back == set,
                RegistrationView::Refused(error, back) => back == set && error.kind
                    != ErrorKind::Unknown && error.cleanup is None,
                RegistrationView::Undefined(back) => back == set,
            },
    {
    }
}

} // verus!
