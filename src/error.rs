//! Every error that can occur while working with USB devices.

use vstd::prelude::*;

verus! {

/// Alias used by every fallible operation of the library.
pub type UsbResult<T> = Result<T, Error>;

/// The closed set of failure kinds. Backends translate every OS status into one of these.
#[derive(Debug, Clone, Copy, PartialEq, Eq, Structural)]
pub enum Error {
    /// An operation isn't supported; e.g. by this backend or device.
    Unsupported,
    /// No device matches a given selector or locator.
    DeviceNotFound,
    /// A device is not yet, or no longer, open.
    DeviceNotOpen,
    /// The device is known to the OS but has no addressable USB representation (e.g. a root hub).
    DeviceNotReal,
    /// The device is reserved by someone else.
    DeviceReserved,
    /// A USB stall occurred unexpectedly.
    Stalled,
    /// Targeting a non-existent endpoint.
    InvalidEndpoint,
    /// Targeting a non-existent interface.
    InvalidInterface,
    /// An operation exceeded its timeout.
    TimedOut,
    /// An argument had an invalid or disallowed value.
    InvalidArgument,
    /// A transfer was aborted.
    Aborted,
    /// A requested or returned length exceeds what the transfer can carry.
    Overrun,
    /// The OS won't let us touch this resource.
    PermissionDenied,
    /// An untranslated OS return code.
    OsError(i64),
    /// The OS reported success-shaped failure without explaining it.
    UnspecifiedOsError,
}

} // verus!
