//! The capability contract every OS backend implements.
//!
//! A backend is chosen when a [`crate::Host`] is built; the per-device data it
//! produces is an associated type, so a device is only ever handed back to the
//! backend that opened it.

pub mod macos;

use std::rc::Rc;
use std::sync::Arc;
use std::sync::RwLock;
use std::time::Duration;
use std::time::SystemTime;

use vstd::prelude::*;

use crate::backend::macos::iokit::IoKit;
use crate::backend::macos::MacOsBackend;
use crate::device::DeviceInformation;
use crate::error::{Error, UsbResult};

verus! {

#[verifier::external_type_specification]
#[verifier::external_body]
#[verifier::reject_recursive_types(T)]
pub struct ExRwLock<T: ?Sized>(RwLock<T>);

#[verifier::external_type_specification]
#[verifier::external_body]
pub struct ExSystemTime(SystemTime);

/// Buffer that an asynchronous read fills while the caller keeps a handle on it.
pub type ReadBuffer = Arc<RwLock<Vec<u8>>>;

/// Data that an asynchronous write sends.
pub type WriteBuffer = Arc<Vec<u8>>;

/// The largest data stage a control request can carry: its length field has 16 bits.
pub const MAX_CONTROL_LENGTH: usize = 0xFFFF;

/// Relies on `RwLock::try_read`: the length of the buffer behind the lock, or `None` when it
/// cannot be read now without blocking (it is held for writing) or the lock is poisoned.
#[verifier::external_body]
pub(crate) fn buffer_length(buffer: &RwLock<Vec<u8>>) -> Option<usize> {
    match buffer.try_read() {
        Ok(guard) => Some(guard.len()),
        Err(_) => None,
    }
}

/// The wLength of a control request whose data stage has the given length. A buffer that
/// cannot be read now (it is being written, or its lock is poisoned) is an invalid argument; a length beyond what
/// the 16-bit length field carries is an overrun.
pub open spec fn control_length_of(length: Option<usize>) -> UsbResult<u16> {
    match length {
        None => Err(Error::InvalidArgument),
        Some(n) => if n > MAX_CONTROL_LENGTH {
            Err(Error::Overrun)
        } else {
            Ok(n as u16)
        },
    }
}

/// Checks the length of a control request's data stage.
pub fn control_length(length: Option<usize>) -> (r: UsbResult<u16>)
    ensures
        r == control_length_of(length),
{
    match length {
        None => Err(Error::InvalidArgument),
        Some(n) => {
            if n > MAX_CONTROL_LENGTH {
                Err(Error::Overrun)
            } else {
                Ok(n as u16)
            }
        },
    }
}

/// Per-device data that a backend keeps for an opened device.
pub trait BackendDevice {}

/// The operation set every OS backend implements.
pub trait Backend {
    /// The backend's resources for one opened device.
    type DeviceData: BackendDevice;

    /// Whether the backend refuses to open a device from this information without asking
    /// the OS, reporting it not found. A backend that states no such case refuses none.
    open spec fn refuses_open(&self, information: DeviceInformation) -> bool {
        false
    }

    /// Whether claiming `interface` of `device` is denied by the backend's own records,
    /// leaving the device as it was. A backend that states no such case denies none.
    open spec fn denies_claim(&self, device: Self::DeviceData, interface: u8) -> bool {
        false
    }

    /// Returns information for every addressable device present on the system.
    fn get_devices(&self) -> UsbResult<Vec<DeviceInformation>>;

    /// Opens a device found by enumeration.
    fn open(&self, information: &DeviceInformation) -> (r: UsbResult<Self::DeviceData>)
        ensures
            self.refuses_open(*information) ==> r is Err && r->Err_0 == Error::DeviceNotFound,
    ;

    /// Releases the kernel driver bound to an interface, where the OS offers a way to.
    fn release_kernel_driver(&self, device: &mut Self::DeviceData, interface: u8) -> UsbResult<()>;

    /// Claims an interface for exclusive access.
    fn claim_interface(&self, device: &mut Self::DeviceData, interface: u8) -> (r: UsbResult<()>)
        ensures
            self.denies_claim(*old(device), interface) ==> r == Err::<(), Error>(
                Error::PermissionDenied,
            ) && *final(device) == *old(device),
    ;

    /// Releases the claim held over an interface.
    fn unclaim_interface(&self, device: &mut Self::DeviceData, interface: u8) -> UsbResult<()>;

    /// Returns the active configuration, or 0 if the device is unconfigured.
    fn active_configuration(&self, device: &Self::DeviceData) -> UsbResult<u8>
    ;

    /// Selects the active configuration.
    fn set_active_configuration(
        &self,
        device: &Self::DeviceData,
        configuration_index: u8,
    ) -> UsbResult<()>
    ;

    /// Bus-resets the device.
    fn reset_device(&self, device: &Self::DeviceData) -> UsbResult<()>
    ;

    /// Clears the halt condition on an endpoint address.
    fn clear_stall(&self, device: &Self::DeviceData, endpoint_address: u8) -> UsbResult<()>
    ;

    /// Puts an interface into an alternate setting.
    fn set_alternate_setting(
        &self,
        device: &Self::DeviceData,
        interface: u8,
        setting: u8,
    ) -> UsbResult<()>
    ;

    /// Returns the current bus frame number and the time at which it occurred.
    fn current_bus_frame(&self, device: &Self::DeviceData) -> UsbResult<(u64, SystemTime)>
    ;

    /// Performs an IN control request into `target`; returns the length read.
    fn control_read(
        &self,
        device: &Self::DeviceData,
        request_type: u8,
        request_number: u8,
        value: u16,
        index: u16,
        target: &mut [u8],
        timeout: Option<Duration>,
    ) -> (r: UsbResult<usize>)
        ensures
            old(target)@.len() > MAX_CONTROL_LENGTH ==> r == Err::<usize, Error>(Error::Overrun)
                && final(target)@ == old(target)@,
            r is Ok ==> r->Ok_0 <= old(target)@.len(),
    ;

    /// Submits an IN control request; the owned, single-use `callback` receives the outcome later.
    fn control_read_nonblocking<F: FnOnce(UsbResult<usize>) + Send + 'static>(
        &self,
        device: &Self::DeviceData,
        request_type: u8,
        request_number: u8,
        value: u16,
        index: u16,
        target: ReadBuffer,
        callback: F,
        timeout: Option<Duration>,
    ) -> UsbResult<()>;

    /// Performs an OUT control request carrying `data`.
    fn control_write(
        &self,
        device: &Self::DeviceData,
        request_type: u8,
        request_number: u8,
        value: u16,
        index: u16,
        data: &[u8],
        timeout: Option<Duration>,
    ) -> (r: UsbResult<()>)
        ensures
            data@.len() > MAX_CONTROL_LENGTH ==> r == Err::<(), Error>(Error::Overrun),
    ;

    /// Submits an OUT control request; `callback` receives the outcome later.
    fn control_write_nonblocking<F: FnOnce(UsbResult<usize>) + Send + 'static>(
        &self,
        device: &Self::DeviceData,
        request_type: u8,
        request_number: u8,
        value: u16,
        index: u16,
        data: WriteBuffer,
        callback: F,
        timeout: Option<Duration>,
    ) -> (r: UsbResult<()>)
        ensures
            data@.len() > MAX_CONTROL_LENGTH ==> r == Err::<(), Error>(Error::Overrun),
    ;

    /// Reads from an IN endpoint, e.g. a bulk read; returns the length read.
    fn read(
        &self,
        device: &Self::DeviceData,
        endpoint: u8,
        buffer: &mut [u8],
        timeout: Option<Duration>,
    ) -> (r: UsbResult<usize>)
        ensures
            r is Ok ==> r->Ok_0 <= old(buffer)@.len(),
    ;

    /// Writes to an OUT endpoint, e.g. a bulk write.
    fn write(
        &self,
        device: &Self::DeviceData,
        endpoint: u8,
        data: &[u8],
        timeout: Option<Duration>,
    ) -> UsbResult<()>
    ;

    /// Submits a read from an IN endpoint; `callback` receives the outcome later.
    fn read_nonblocking<F: FnOnce(UsbResult<usize>) + Send + 'static>(
        &self,
        device: &Self::DeviceData,
        endpoint: u8,
        buffer: ReadBuffer,
        callback: F,
        timeout: Option<Duration>,
    ) -> UsbResult<()>;

    /// Submits a write to an OUT endpoint; `callback` receives the outcome later.
    fn write_nonblocking<F: FnOnce(UsbResult<usize>) + Send + 'static>(
        &self,
        device: &Self::DeviceData,
        endpoint: u8,
        data: WriteBuffer,
        callback: F,
        timeout: Option<Duration>,
    ) -> UsbResult<()>;
}

/// Creates the default backend: the macOS backend over the given IOKit services.
pub fn create_default_backend<K: IoKit>(iokit: K) -> (r: UsbResult<Rc<MacOsBackend<K>>>)
    ensures
        r is Ok,
{
    Ok(Rc::new(MacOsBackend::new(iokit)?))
}

} // verus!
