//! The error taxonomy, and the one place where a native status code is read.

use vstd::prelude::*;
use crate::native;

verus! {

/// Everything that can go wrong with an operation.
#[derive(Clone, Copy, Debug, PartialEq, Eq, Hash, Structural)]
pub enum ErrorKind {
    /// NVML was not first initialized.
    Uninitialized,
    /// A supplied argument is invalid.
    InvalidArgument,
    /// The requested operation is not available on the target device.
    NotSupported,
    /// The current user does not have permission for the operation.
    NoPermission,
    /// A query to find an object was unsuccessful.
    NotFound,
    /// The storage offered to a call was too small for its answer.
    InsufficientSize,
    /// A device's external power cables are not properly attached.
    InsufficientPower,
    /// The NVIDIA driver is not loaded.
    DriverNotLoaded,
    /// The timeout given to a call passed.
    TimedOut,
    /// The NVIDIA kernel detected an interrupt issue with a GPU.
    IrqIssue,
    /// The infoROM is corrupted.
    CorruptedInfoROM,
    /// The GPU has fallen off the bus or has otherwise become inaccessible.
    GpuIsLost,
    /// The GPU requires a reset before it can be used again.
    ResetRequired,
    /// The GPU control device has been blocked by the operating system.
    OperatingSystemMismatch,
    /// The operation cannot be performed because the GPU is currently in use.
    InUse,
    /// A text buffer filled by NVML does not hold valid UTF-8.
    Utf8DecodeError,
    /// NVML handed back an enumeration value that this library does not know.
    UnrecognizedEnumVariant,
    /// A string meant for NVML holds a zero byte before its end.
    UnexpectedNullByte,
    /// An internal driver error, or a status code that this library does not know.
    Unknown,
}

/// An error: its kind and, where the error set off a cleanup that failed as
/// well, the kind of that second failure.
#[derive(Clone, Copy, Debug, PartialEq, Eq, Hash)]
pub struct Error {
    /// What went wrong.
    pub kind: ErrorKind,
    /// What went wrong with the cleanup that followed, if it failed too.
    pub cleanup: Option<ErrorKind>,
}

/// The error kind that a native status code stands for; `None` for success.
/// A code outside the documented set is `Unknown`.
pub open spec fn status_kind(code: u32) -> Option<ErrorKind> {
    if code == native::NVML_SUCCESS {
        None
    } else if code == native::NVML_ERROR_UNINITIALIZED {
        Some(ErrorKind::Uninitialized)
    } else if code == native::NVML_ERROR_INVALID_ARGUMENT {
        Some(ErrorKind::InvalidArgument)
    } else if code == native::NVML_ERROR_NOT_SUPPORTED {
        Some(ErrorKind::NotSupported)
    } else if code == native::NVML_ERROR_NO_PERMISSION {
        Some(ErrorKind::NoPermission)
    } else if code == native::NVML_ERROR_NOT_FOUND {
        Some(ErrorKind::NotFound)
    } else if code == native::NVML_ERROR_INSUFFICIENT_SIZE {
        Some(ErrorKind::InsufficientSize)
    } else if code == native::NVML_ERROR_INSUFFICIENT_POWER {
        Some(ErrorKind::InsufficientPower)
    } else if code == native::NVML_ERROR_DRIVER_NOT_LOADED {
        Some(ErrorKind::DriverNotLoaded)
    } else if code == native::NVML_ERROR_TIMEOUT {
        Some(ErrorKind::TimedOut)
    } else if code == native::NVML_ERROR_IRQ_ISSUE {
        Some(ErrorKind::IrqIssue)
    } else if code == native::NVML_ERROR_CORRUPTED_INFOROM {
        Some(ErrorKind::CorruptedInfoROM)
    } else if code == native::NVML_ERROR_GPU_IS_LOST {
        Some(ErrorKind::GpuIsLost)
    } else if code == native::NVML_ERROR_RESET_REQUIRED {
        Some(ErrorKind::ResetRequired)
    } else if code == native::NVML_ERROR_OPERATING_SYSTEM {
        Some(ErrorKind::OperatingSystemMismatch)
    } else if code == native::NVML_ERROR_IN_USE {
        Some(ErrorKind::InUse)
    } else {
        Some(ErrorKind::Unknown)
    }
}

/// The status codes that NVML documents and this library tells apart.
pub open spec fn documented(code: u32) -> bool {
    ||| code == native::NVML_SUCCESS
    ||| code == native::NVML_ERROR_UNINITIALIZED
    ||| code == native::NVML_ERROR_INVALID_ARGUMENT
    ||| code == native::NVML_ERROR_NOT_SUPPORTED
    ||| code == native::NVML_ERROR_NO_PERMISSION
    ||| code == native::NVML_ERROR_NOT_FOUND
    ||| code == native::NVML_ERROR_INSUFFICIENT_SIZE
    ||| code == native::NVML_ERROR_INSUFFICIENT_POWER
    ||| code == native::NVML_ERROR_DRIVER_NOT_LOADED
    ||| code == native::NVML_ERROR_TIMEOUT
    ||| code == native::NVML_ERROR_IRQ_ISSUE
    ||| code == native::NVML_ERROR_CORRUPTED_INFOROM
    ||| code == native::NVML_ERROR_GPU_IS_LOST
    ||| code == native::NVML_ERROR_RESET_REQUIRED
    ||| code == native::NVML_ERROR_OPERATING_SYSTEM
    ||| code == native::NVML_ERROR_IN_USE
    ||| code == native::NVML_ERROR_UNKNOWN
}

/// Two documented status codes that differ never mean the same: each has an
/// error kind of its own, and only success has none.
pub proof fn lemma_status_kinds_distinct(a: u32, b: u32)
    requires
        documented(a),
        documented(b),
        a != b,
    ensures
        status_kind(a) != status_kind(b),
{
}

/// A status code outside the documented set means `Unknown`, as the
/// documented code of that name does; it never means success.
pub proof fn lemma_undocumented_is_unknown(code: u32)
    requires
        !documented(code),
    ensures
        status_kind(code) == Some(ErrorKind::Unknown),
        status_kind(native::NVML_ERROR_UNKNOWN) == Some(ErrorKind::Unknown),
{
}

/// A call that did not succeed yields its error and nothing else: nothing of
/// what it may have written gets through, not in part either.
pub proof fn lemma_failure_yields_nothing<T>(status: u32, output: Result<T, Error>)
    requires
        status != native::NVML_SUCCESS,
    ensures
        after(status, output) is Err,
        after(status, output)->Err_0.kind == status_kind(status)->Some_0,
        status == native::NVML_ERROR_INSUFFICIENT_SIZE ==> after(status, output) == Err::<T, Error>(
            Error::of(ErrorKind::InsufficientSize),
        ),
{
}

/// What a call wrote does not matter where the call did not succeed: the
/// error is the same whatever stands in its output.
pub proof fn lemma_failure_ignores_output<T>(
    status: u32,
    first: Result<T, Error>,
    second: Result<T, Error>,
)
    requires
        status != native::NVML_SUCCESS,
    ensures
        after(status, first) == after(status, second),
{
}

/// What a native status code means for the call that returned it.
pub open spec fn status_result(code: u32) -> Result<(), Error> {
    match status_kind(code) {
        None => Ok(()),
        Some(kind) => Err(Error::of(kind)),
    }
}

/// What a call yields that returned `status`: the error of the status where
/// it reports one, whatever the call wrote, and else what `output`, the
/// reading of what the call wrote, gives.
pub open spec fn after<T>(status: u32, output: Result<T, Error>) -> Result<T, Error> {
    match status_kind(status) {
        Some(kind) => Err(Error::of(kind)),
        None => output,
    }
}

/// The variant that an integer of NVML was recognized as, or
/// `UnrecognizedEnumVariant` where it was recognized as none.
pub open spec fn recognized<T>(variant: Option<T>) -> Result<T, Error> {
    match variant {
        Some(variant) => Ok(variant),
        None => Err(Error::of(ErrorKind::UnrecognizedEnumVariant)),
    }
}

impl Error {
    /// The plain error of the given kind.
    pub open spec fn of(kind: ErrorKind) -> Error {
        Error { kind, cleanup: None }
    }

    /// The plain error of the given kind.
    pub fn new(kind: ErrorKind) -> (error: Error)
        ensures
            error == Error::of(kind),
    {
        Error { kind, cleanup: None }
    }

    /// What went wrong.
    pub fn kind(&self) -> (kind: ErrorKind)
        ensures
            kind == self.kind,
    {
        self.kind
    }

    /// This error, with the failure of the cleanup that it set off chained
    /// onto it.
    pub fn chain(self, cleanup: ErrorKind) -> (error: Error)
        ensures
            error == (Error { kind: self.kind, cleanup: Some(cleanup) }),
    {
        Error { kind: self.kind, cleanup: Some(cleanup) }
    }
}

/// Reads the status code that a native call returned.
pub fn nvml_try(code: u32) -> (result: Result<(), Error>)
    ensures
        result == status_result(code),
{
    if code == native::NVML_SUCCESS {
        Ok(())
    } else if code == native::NVML_ERROR_UNINITIALIZED {
        Err(Error::new(ErrorKind::Uninitialized))
    } else if code == native::NVML_ERROR_INVALID_ARGUMENT {
        Err(Error::new(ErrorKind::InvalidArgument))
    } else if code == native::NVML_ERROR_NOT_SUPPORTED {
        Err(Error::new(ErrorKind::NotSupported))
    } else if code == native::NVML_ERROR_NO_PERMISSION {
        Err(Error::new(ErrorKind::NoPermission))
    } else if code == native::NVML_ERROR_NOT_FOUND {
        Err(Error::new(ErrorKind::NotFound))
    } else if code == native::NVML_ERROR_INSUFFICIENT_SIZE {
        Err(Error::new(ErrorKind::InsufficientSize))
    } else if code == native::NVML_ERROR_INSUFFICIENT_POWER {
        Err(Error::new(ErrorKind::InsufficientPower))
    } else if code == native::NVML_ERROR_DRIVER_NOT_LOADED {
        Err(Error::new(ErrorKind::DriverNotLoaded))
    } else if code == native::NVML_ERROR_TIMEOUT {
        Err(Error::new(ErrorKind::TimedOut))
    } else if code == native::NVML_ERROR_IRQ_ISSUE {
        Err(Error::new(ErrorKind::IrqIssue))
    } else if code == native::NVML_ERROR_CORRUPTED_INFOROM {
        Err(Error::new(ErrorKind::CorruptedInfoROM))
    } else if code == native::NVML_ERROR_GPU_IS_LOST {
        Err(Error::new(ErrorKind::GpuIsLost))
    } else if code == native::NVML_ERROR_RESET_REQUIRED {
        Err(Error::new(ErrorKind::ResetRequired))
    } else if code == native::NVML_ERROR_OPERATING_SYSTEM {
        Err(Error::new(ErrorKind::OperatingSystemMismatch))
    } else if code == native::NVML_ERROR_IN_USE {
        Err(Error::new(ErrorKind::InUse))
    } else {
        Err(Error::new(ErrorKind::Unknown))
    }
}

} // verus!
