//! IOKit return codes and their translation into the library's error taxonomy.

use std::time::Duration;

use vstd::prelude::*;

use crate::error::{Error, UsbResult};

verus! {

/// The base of IOKit's common return codes (system `iokit`, subsystem `common`).
pub const IOKIT_COMMON_BASE: i32 = -0x2000_0000;

/// The base of IOKit's USB family return codes (system `iokit`, subsystem `usb`).
pub const IOKIT_USB_BASE: i32 = -0x2000_0000 + 0x4000;

/// `kIOReturnSuccess`.
pub const IO_RETURN_SUCCESS: i32 = 0;

/// `kIOReturnNoResources`: resource shortage.
pub const IO_RETURN_NO_RESOURCES: i32 = IOKIT_COMMON_BASE + 0x2be;

/// `kIOReturnNoDevice`: no such device.
pub const IO_RETURN_NO_DEVICE: i32 = IOKIT_COMMON_BASE + 0x2c0;

/// `kIOReturnBadArgument`: invalid argument.
pub const IO_RETURN_BAD_ARGUMENT: i32 = IOKIT_COMMON_BASE + 0x2c2;

/// `kIOReturnExclusiveAccess`: exclusive access and device already open.
pub const IO_RETURN_EXCLUSIVE_ACCESS: i32 = IOKIT_COMMON_BASE + 0x2c5;

/// `kIOReturnNotOpen`: device not open.
pub const IO_RETURN_NOT_OPEN: i32 = IOKIT_COMMON_BASE + 0x2cd;

/// `kIOReturnOverrun`: data overrun.
pub const IO_RETURN_OVERRUN: i32 = IOKIT_COMMON_BASE + 0x2e8;

/// `kIOReturnAborted`: operation aborted.
pub const IO_RETURN_ABORTED: i32 = IOKIT_COMMON_BASE + 0x2eb;

/// `kIOUSBPipeStalled`: the pipe stalled.
pub const IO_USB_PIPE_STALLED: i32 = IOKIT_USB_BASE + 0x4f;

/// `kIOUSBTransactionTimeout`: the transaction timed out.
pub const IO_USB_TRANSACTION_TIMEOUT: i32 = IOKIT_USB_BASE + 0x51;

/// `kIOUSBNoAsyncPortErr`: no asynchronous port was created.
pub const IO_USB_NO_ASYNC_PORT: i32 = IOKIT_USB_BASE + 0x5f;

/// `kIOUSBUnknownPipeErr`: the pipe reference is not recognized.
pub const IO_USB_UNKNOWN_PIPE: i32 = IOKIT_USB_BASE + 0x61;

/// The error kind that an unsuccessful IOKit return code stands for.
pub open spec fn error_for_io_return(rc: i32) -> Error {
    if rc == IO_RETURN_NOT_OPEN {
        Error::DeviceNotOpen
    } else if rc == IO_RETURN_NO_DEVICE {
        Error::DeviceNotFound
    } else if rc == IO_RETURN_EXCLUSIVE_ACCESS {
        Error::DeviceReserved
    } else if rc == IO_RETURN_BAD_ARGUMENT {
        Error::InvalidArgument
    } else if rc == IO_RETURN_ABORTED {
        Error::Aborted
    } else if rc == IO_RETURN_OVERRUN {
        Error::Overrun
    } else if rc == IO_RETURN_NO_RESOURCES {
        Error::PermissionDenied
    } else if rc == IO_USB_NO_ASYNC_PORT {
        Error::DeviceNotOpen
    } else if rc == IO_USB_UNKNOWN_PIPE {
        Error::InvalidEndpoint
    } else if rc == IO_USB_PIPE_STALLED {
        Error::Stalled
    } else if rc == IO_USB_TRANSACTION_TIMEOUT {
        Error::TimedOut
    } else {
        Error::OsError(rc as i64)
    }
}

/// The outcome an IOKit return code stands for: success, or its translated error.
pub open spec fn outcome_of_io_return<T>(rc: i32, value: T) -> UsbResult<T> {
    if rc == IO_RETURN_SUCCESS {
        Ok(value)
    } else {
        Err(error_for_io_return(rc))
    }
}

/// Translates an unsuccessful IOKit return code into the library's error taxonomy.
pub fn io_return_to_error(rc: i32) -> (r: Error)
    ensures
        r == error_for_io_return(rc),
{
    if rc == IO_RETURN_NOT_OPEN {
        Error::DeviceNotOpen
    } else if rc == IO_RETURN_NO_DEVICE {
        Error::DeviceNotFound
    } else if rc == IO_RETURN_EXCLUSIVE_ACCESS {
        Error::DeviceReserved
    } else if rc == IO_RETURN_BAD_ARGUMENT {
        Error::InvalidArgument
    } else if rc == IO_RETURN_ABORTED {
        Error::Aborted
    } else if rc == IO_RETURN_OVERRUN {
        Error::Overrun
    } else if rc == IO_RETURN_NO_RESOURCES {
        Error::PermissionDenied
    } else if rc == IO_USB_NO_ASYNC_PORT {
        Error::DeviceNotOpen
    } else if rc == IO_USB_UNKNOWN_PIPE {
        Error::InvalidEndpoint
    } else if rc == IO_USB_PIPE_STALLED {
        Error::Stalled
    } else if rc == IO_USB_TRANSACTION_TIMEOUT {
        Error::TimedOut
    } else {
        Error::OsError(rc as i64)
    }
}

/// Creates a result from an IOKit return code.
pub fn from_io_return(rc: i32) -> (r: UsbResult<()>)
    ensures
        r == outcome_of_io_return(rc, ()),
{
    from_io_return_and_value(rc, ())
}

/// Creates a result from an IOKit return code, carrying `ok_value` on success.
pub fn from_io_return_and_value<T>(rc: i32, ok_value: T) -> (r: UsbResult<T>)
    ensures
        r == outcome_of_io_return(rc, ok_value),
{
    if rc != IO_RETURN_SUCCESS {
        Err(io_return_to_error(rc))
    } else {
        Ok(ok_value)
    }
}

/// The result an asynchronous completion delivers to its callback: the transferred length
/// on success, the translated error otherwise.
pub fn completion_result(rc: i32, total_length: usize) -> (r: UsbResult<usize>)
    ensures
        r == outcome_of_io_return(rc, total_length),
{
    from_io_return_and_value(rc, total_length)
}

/// Relies on `Duration::as_millis`: the whole milliseconds the duration holds.
#[verifier::external_body]
fn duration_millis(timeout: &Duration) -> u128 {
    timeout.as_millis()
}

/// Converts a timeout in milliseconds to IOKit's 32-bit unit, saturating.
pub fn saturate_timeout_millis(millis: u128) -> (r: u32)
    ensures
        millis <= u32::MAX ==> r == millis,
        millis > u32::MAX ==> r == u32::MAX,
{
    if millis > u32::MAX as u128 {
        u32::MAX
    } else {
        millis as u32
    }
}

/// Converts a timeout into IOKit's millisecond unit, saturating at the largest it holds.
pub fn to_iokit_timeout(timeout: &Duration) -> u32 {
    saturate_timeout_millis(duration_millis(timeout))
}

} // verus!
