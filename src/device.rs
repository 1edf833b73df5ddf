//! Interface for working with USB devices.

use std::rc::Rc;
use std::time::Duration;

use vstd::prelude::*;

use crate::backend::{
    buffer_length, control_length, Backend, ReadBuffer, WriteBuffer, MAX_CONTROL_LENGTH,
};
use crate::error::{Error, UsbResult};
use crate::futures::{complete_shared, UsbFuture};
use crate::request::{
    descriptor_type_code, request_type_byte, standard_in_from_device, DescriptorType,
    RequestType, StandardDeviceRequest,
};

verus! {

/// Known information for an unopened device, as produced by enumeration.
#[derive(Debug, Clone)]
pub struct DeviceInformation {
    /// The Vendor ID (idVendor) assigned to the device.
    pub vendor_id: u16,
    /// The Product ID (idProduct) associated with the device.
    pub product_id: u16,
    /// The serial string associated with the device, if one could be read.
    pub serial: Option<String>,
    /// The vendor string associated with the device, if and only if the OS has read it.
    pub vendor: Option<String>,
    /// The product string associated with the device, if and only if the OS has read it.
    pub product: Option<String>,
    /// Numeric locator a backend uses to re-find the device when opening it.
    pub backend_numeric_location: Option<u64>,
    /// String locator a backend uses to re-find the device when opening it.
    pub backend_string_location: Option<String>,
}

impl DeviceInformation {
    /// Creates device information without a backend locator, for use by custom backends.
    pub fn new(
        vendor_id: u16,
        product_id: u16,
        serial: Option<String>,
        vendor: Option<String>,
        product: Option<String>,
    ) -> (r: DeviceInformation)
        ensures
            r.vendor_id == vendor_id,
            r.product_id == product_id,
            r.serial == serial,
            r.vendor == vendor,
            r.product == product,
            r.backend_numeric_location is None,
            r.backend_string_location is None,
    {
        DeviceInformation {
            vendor_id,
            product_id,
            serial,
            vendor,
            product,
            backend_numeric_location: None,
            backend_string_location: None,
        }
    }

    /// The numeric locator a backend recorded for this device, if any.
    pub fn backend_numeric_location(&self) -> (r: Option<u64>)
        ensures
            r == self.backend_numeric_location,
    {
        self.backend_numeric_location
    }
}

/// Information used to find a specific device; unset fields match anything.
#[derive(Debug, Clone)]
pub struct DeviceSelector {
    /// If specified, searches for a device with the given VID.
    pub vendor_id: Option<u16>,
    /// If specified, searches for a device with the given PID.
    pub product_id: Option<u16>,
    /// If specified, searches for a device with the given serial string.
    pub serial: Option<String>,
}

/// Whether an optional serial of a device equals a given serial string.
pub open spec fn serial_equals(device_serial: Option<String>, serial: String) -> bool {
    device_serial is Some && device_serial->0@ == serial@
}

impl DeviceSelector {
    /// Whether `device` passes this selector: every set field equals the device's field.
    pub open spec fn accepts(&self, device: DeviceInformation) -> bool {
        &&& (self.vendor_id is Some ==> self.vendor_id->0 == device.vendor_id)
        &&& (self.product_id is Some ==> self.product_id->0 == device.product_id)
        &&& (self.serial is Some ==> serial_equals(device.serial, self.serial->0))
    }

    /// Whether no field of the selector is set.
    pub open spec fn is_unconstrained(&self) -> bool {
        self.vendor_id is None && self.product_id is None && self.serial is None
    }

    /// A selector that accepts every device.
    pub fn any() -> (r: DeviceSelector)
        ensures
            r.is_unconstrained(),
    {
        DeviceSelector { vendor_id: None, product_id: None, serial: None }
    }

    /// Whether the given device passes this selector.
    pub fn matches(&self, device: &DeviceInformation) -> (r: bool)
        ensures
            r == self.accepts(*device),
    {
        if let Some(vid) = self.vendor_id {
            if vid != device.vendor_id {
                return false;
            }
        }
        if let Some(pid) = self.product_id {
            if pid != device.product_id {
                return false;
            }
        }
        if let Some(serial) = &self.serial {
            match &device.serial {
                Some(device_serial) => {
                    if !string_eq(serial, device_serial) {
                        return false;
                    }
                },
                None => {
                    return false;
                },
            }
        }
        true
    }
}

/// Compares two strings character by character.
fn string_eq(a: &String, b: &String) -> (r: bool)
    ensures
        r == (a@ == b@),
{
    let sa = a.as_str();
    let sb = b.as_str();
    let n = sa.unicode_len();
    if n != sb.unicode_len() {
        return false;
    }
    let mut i: usize = 0;
    while i < n
        invariant
            sa@ == a@,
            sb@ == b@,
            n == a@.len(),
            n == b@.len(),
            0 <= i <= n,
            a@.subrange(0, i as int) == b@.subrange(0, i as int),
        decreases n - i,
    {
        if sa.get_char(i) != sb.get_char(i) {
            assert(a@[i as int] != b@[i as int]);
            assert(a@ != b@);
            return false;
        }
        assert(a@.subrange(0, i + 1) == a@.subrange(0, i as int).push(a@[i as int]));
        assert(b@.subrange(0, i + 1) == b@.subrange(0, i as int).push(b@[i as int]));
        i = i + 1;
    }
    assert(a@ == a@.subrange(0, n as int));
    assert(b@ == b@.subrange(0, n as int));
    true
}

/// A selector with none of its fields set accepts every device.
pub proof fn lemma_unconstrained_selector_matches_all(selector: DeviceSelector, device: DeviceInformation)
    requires
        selector.is_unconstrained(),
    ensures
        selector.accepts(device),
{
}

/// A selector with a set field that disagrees with the device's field rejects the device.
pub proof fn lemma_disagreeing_selector_rejects(selector: DeviceSelector, device: DeviceInformation)
    requires
        (selector.vendor_id is Some && selector.vendor_id->0 != device.vendor_id) || (
        selector.product_id is Some && selector.product_id->0 != device.product_id) || (
        selector.serial is Some && !serial_equals(device.serial, selector.serial->0)),
    ensures
        !selector.accepts(device),
{
}

/// Treats an `Unsupported` outcome as success; every other outcome is kept.
pub fn unsupported_as_success(outcome: UsbResult<()>) -> (r: UsbResult<()>)
    ensures
        r == (if outcome == Err::<(), Error>(Error::Unsupported) {
            Ok::<(), Error>(())
        } else {
            outcome
        }),
{
    match outcome {
        Err(Error::Unsupported) => Ok(()),
        other => other,
    }
}

/// Keeps what a transfer read into `buffer`: its first `read` bytes, or the transfer's failure.
pub fn truncate_to_read(buffer: Vec<u8>, read: UsbResult<usize>) -> (r: UsbResult<Vec<u8>>)
    ensures
        read is Err ==> r == Err::<Vec<u8>, Error>(read->Err_0),
        read is Ok && read->Ok_0 <= buffer@.len() ==> r is Ok && r->Ok_0@ == buffer@.take(
            read->Ok_0 as int,
        ),
        read is Ok && read->Ok_0 > buffer@.len() ==> r is Ok && r->Ok_0@ == buffer@,
{
    let mut buffer = buffer;
    match read {
        Err(e) => Err(e),
        Ok(length) => {
            buffer.truncate(length);
            Ok(buffer)
        },
    }
}

/// The outcome of an asynchronous call: its future once the submission was accepted, the
/// submission's failure otherwise.
pub fn future_after_submission(future: UsbFuture, submitted: UsbResult<()>) -> (r: UsbResult<
    UsbFuture,
>)
    ensures
        submitted is Err ==> r is Err && r->Err_0 == submitted->Err_0,
        submitted is Ok ==> r == Ok::<UsbFuture, Error>(future),
{
    match submitted {
        Err(e) => Err(e),
        Ok(()) => Ok(future),
    }
}

/// The wValue of a GET_DESCRIPTOR request: descriptor type in the high byte, index in the low.
pub open spec fn descriptor_value(descriptor_type: u8, descriptor_index: u8) -> u16 {
    (descriptor_type as int * 256 + descriptor_index as int) as u16
}

/// Computes the wValue of a GET_DESCRIPTOR request.
pub fn descriptor_request_value(descriptor_type: u8, descriptor_index: u8) -> (r: u16)
    ensures
        r == descriptor_value(descriptor_type, descriptor_index),
        r as int == descriptor_type as int * 256 + descriptor_index as int,
{
    (descriptor_type as u16) * 256 + (descriptor_index as u16)
}

/// An opened USB device: the backend that opened it and that backend's resources for it.
pub struct Device<B: Backend> {
    /// The backend associated with this device.
    backend: Rc<B>,
    /// The backend's resources for this device.
    backend_device: B::DeviceData,
}

impl<B: Backend> Device<B> {
    /// Wraps a backend's device resources in the user-facing device.
    pub fn from_backend_device(backend_device: B::DeviceData, backend: Rc<B>) -> (r: Device<B>)
        ensures
            r.backend_data() == backend_device,
            r.backend() == backend,
    {
        Device { backend, backend_device }
    }

    /// The backend's resources for this device.
    pub closed spec fn backend_data(&self) -> B::DeviceData {
        self.backend_device
    }

    /// The backend that opened this device.
    pub closed spec fn backend(&self) -> Rc<B> {
        self.backend
    }

    /// Gives access to the backend's resources for this device.
    pub fn backend_device(&self) -> (r: &B::DeviceData)
        ensures
            *r == self.backend_data(),
    {
        &self.backend_device
    }

    /// Releases the current device from its kernel driver.
    /// Backends that cannot do so return [`Error::Unsupported`].
    pub fn release_kernel_driver(&mut self, interface_number: u8) -> (r: UsbResult<()>)
        ensures
            final(self).backend() == old(self).backend(),
    {
        self.backend.release_kernel_driver(&mut self.backend_device, interface_number)
    }

    /// Releases the current device from its kernel driver where the platform can;
    /// succeeds where it cannot.
    pub fn release_kernel_driver_if_possible(&mut self, interface_number: u8) -> (r: UsbResult<()>)
        ensures
            r != Err::<(), Error>(Error::Unsupported),
            final(self).backend() == old(self).backend(),
    {
        let outcome = self.backend.release_kernel_driver(&mut self.backend_device, interface_number);
        unsupported_as_success(outcome)
    }

    /// Claims an interface for exclusive access.
    pub fn claim_interface(&mut self, interface_number: u8) -> (r: UsbResult<()>)
        ensures
            final(self).backend() == old(self).backend(),
            (*old(self).backend()).denies_claim(old(self).backend_data(), interface_number) ==> r
                == Err::<(), Error>(Error::PermissionDenied) && *final(self) == *old(self),
    {
        self.backend.claim_interface(&mut self.backend_device, interface_number)
    }

    /// Releases the claim held over an interface.
    pub fn unclaim_interface(&mut self, interface_number: u8) -> (r: UsbResult<()>)
        ensures
            final(self).backend() == old(self).backend(),
    {
        self.backend.unclaim_interface(&mut self.backend_device, interface_number)
    }

    /// Performs an IN control request into `target` and returns the length read.
    /// A target longer than a control request can carry fails with [`Error::Overrun`]
    /// before the backend is asked.
    pub fn control_read(
        &mut self,
        request_type: RequestType,
        request_number: u8,
        value: u16,
        index: u16,
        target: &mut [u8],
        timeout: Option<Duration>,
    ) -> (r: UsbResult<usize>)
        ensures
            old(target)@.len() > MAX_CONTROL_LENGTH ==> r == Err::<usize, Error>(Error::Overrun)
                && final(target)@ == old(target)@ && *final(self) == *old(self),
            r is Ok ==> r->Ok_0 <= old(target)@.len(),
    {
        if target.len() > MAX_CONTROL_LENGTH {
            return Err(Error::Overrun);
        }
        self.backend.control_read(
            &self.backend_device,
            request_type.to_byte(),
            request_number,
            value,
            index,
            target,
            timeout,
        )
    }

    /// Submits an IN control request; `callback` receives the length read, or the failure,
    /// once the transfer completes. A target longer than a control request can carry fails
    /// with [`Error::Overrun`] before the backend is asked.
    pub fn control_read_and_call_back<F: FnOnce(UsbResult<usize>) + Send + 'static>(
        &mut self,
        request_type: RequestType,
        request_number: u8,
        value: u16,
        index: u16,
        target: ReadBuffer,
        callback: F,
        timeout: Option<Duration>,
    ) -> UsbResult<()> {
        control_length(buffer_length(&target))?;
        self.backend.control_read_nonblocking(
            &self.backend_device,
            request_type.to_byte(),
            request_number,
            value,
            index,
            target,
            callback,
            timeout,
        )
    }

    /// Submits an IN control request and returns a future of its outcome. Submission can
    /// fail before the transfer starts; that failure is returned here.
    pub fn control_read_async(
        &mut self,
        request_type: RequestType,
        request_number: u8,
        value: u16,
        index: u16,
        target: ReadBuffer,
        timeout: Option<Duration>,
    ) -> UsbResult<UsbFuture> {
        let future = UsbFuture::new();
        let shared_state = future.clone_state();
        let callback = move |result: UsbResult<usize>| { complete_shared(&shared_state, result) };
        let submitted = self.control_read_and_call_back(
            request_type,
            request_number,
            value,
            index,
            target,
            callback,
            timeout,
        );
        future_after_submission(future, submitted)
    }

    /// Performs an IN control request of up to `max_length` bytes and returns what was read.
    pub fn control_read_to_vec(
        &mut self,
        request_type: RequestType,
        request_number: u8,
        value: u16,
        index: u16,
        max_length: u16,
        timeout: Option<Duration>,
    ) -> (r: UsbResult<Vec<u8>>)
        ensures
            r is Ok ==> r->Ok_0@.len() <= max_length,
    {
        let mut buffer: Vec<u8> = vec![0; max_length as usize];
        let read = self.control_read(
            request_type,
            request_number,
            value,
            index,
            buffer.as_mut_slice(),
            timeout,
        );
        truncate_to_read(buffer, read)
    }

    /// Performs an OUT control request carrying `data`. Data longer than a control request
    /// can carry fails with [`Error::Overrun`] before the backend is asked.
    pub fn control_write(
        &mut self,
        request_type: RequestType,
        request_number: u8,
        value: u16,
        index: u16,
        data: &[u8],
        timeout: Option<Duration>,
    ) -> (r: UsbResult<()>)
        ensures
            data@.len() > MAX_CONTROL_LENGTH ==> r == Err::<(), Error>(Error::Overrun) && *final(
                self) == *old(self),
    {
        if data.len() > MAX_CONTROL_LENGTH {
            return Err(Error::Overrun);
        }
        self.backend.control_write(
            &self.backend_device,
            request_type.to_byte(),
            request_number,
            value,
            index,
            data,
            timeout,
        )
    }

    /// Submits an OUT control request; `callback` receives the length written, or the
    /// failure, once the transfer completes. Data longer than a control request can carry
    /// fails with [`Error::Overrun`] before the backend is asked.
    pub fn control_write_and_call_back<F: FnOnce(UsbResult<usize>) + Send + 'static>(
        &mut self,
        request_type: RequestType,
        request_number: u8,
        value: u16,
        index: u16,
        data: WriteBuffer,
        callback: F,
        timeout: Option<Duration>,
    ) -> (r: UsbResult<()>)
        ensures
            data@.len() > MAX_CONTROL_LENGTH ==> r == Err::<(), Error>(Error::Overrun) && *final(
                self) == *old(self),
    {
        if data.len() > MAX_CONTROL_LENGTH {
            return Err(Error::Overrun);
        }
        self.backend.control_write_nonblocking(
            &self.backend_device,
            request_type.to_byte(),
            request_number,
            value,
            index,
            data,
            callback,
            timeout,
        )
    }

    /// Submits an OUT control request and returns a future of its outcome.
    pub fn control_write_async(
        &mut self,
        request_type: RequestType,
        request_number: u8,
        value: u16,
        index: u16,
        data: WriteBuffer,
        timeout: Option<Duration>,
    ) -> (r: UsbResult<UsbFuture>)
        ensures
            data@.len() > MAX_CONTROL_LENGTH ==> r is Err && r->Err_0 == Error::Overrun && *final(
                self) == *old(self),
    {
        let future = UsbFuture::new();
        let shared_state = future.clone_state();
        let callback = move |result: UsbResult<usize>| { complete_shared(&shared_state, result) };
        let submitted = self.control_write_and_call_back(
            request_type,
            request_number,
            value,
            index,
            data,
            callback,
            timeout,
        );
        future_after_submission(future, submitted)
    }

    /// Reads a device-level descriptor, of up to the largest control length.
    pub fn read_descriptor(&mut self, descriptor_type: u8, descriptor_index: u8) -> (r: UsbResult<
        Vec<u8>,
    >)
        ensures
            r is Ok ==> r->Ok_0@.len() <= MAX_CONTROL_LENGTH,
    {
        let value = descriptor_request_value(descriptor_type, descriptor_index);
        self.control_read_to_vec(
            standard_in_from_device(),
            StandardDeviceRequest::GetDescriptor.code(),
            value,
            0,
            u16::MAX,
            None,
        )
    }

    /// Reads a standard device-level descriptor.
    pub fn read_standard_descriptor(
        &mut self,
        descriptor_type: DescriptorType,
        descriptor_index: u8,
    ) -> (r: UsbResult<Vec<u8>>)
        ensures
            r is Ok ==> r->Ok_0@.len() <= MAX_CONTROL_LENGTH,
    {
        self.read_descriptor(descriptor_type.code(), descriptor_index)
    }

    /// Reads a standard device-level descriptor into `buffer`, returning a future of the
    /// length read.
    pub fn read_standard_descriptor_async(
        &mut self,
        descriptor_type: DescriptorType,
        descriptor_index: u8,
        buffer: ReadBuffer,
    ) -> UsbResult<UsbFuture> {
        let value = descriptor_request_value(descriptor_type.code(), descriptor_index);
        self.control_read_async(
            standard_in_from_device(),
            StandardDeviceRequest::GetDescriptor.code(),
            value,
            0,
            buffer,
            None,
        )
    }

    /// Reads from an endpoint, e.g. a bulk or interrupt read; returns the length read.
    pub fn read(&mut self, endpoint: u8, buffer: &mut [u8], timeout: Option<Duration>) -> (r:
        UsbResult<usize>)
        ensures
            r is Ok ==> r->Ok_0 <= old(buffer)@.len(),
    {
        self.backend.read(&self.backend_device, endpoint, buffer, timeout)
    }

    /// Submits a read from an endpoint; `callback` receives the outcome once it completes.
    pub fn read_and_call_back<F: FnOnce(UsbResult<usize>) + Send + 'static>(
        &mut self,
        endpoint: u8,
        buffer: ReadBuffer,
        callback: F,
        timeout: Option<Duration>,
    ) -> UsbResult<()> {
        self.backend.read_nonblocking(&self.backend_device, endpoint, buffer, callback, timeout)
    }

    /// Submits a read from an endpoint and returns a future of the length read.
    pub fn read_async(&mut self, endpoint: u8, buffer: ReadBuffer, timeout: Option<Duration>) -> (r:
        UsbResult<UsbFuture>)
    {
        let future = UsbFuture::new();
        let shared_state = future.clone_state();
        let callback = move |result: UsbResult<usize>| { complete_shared(&shared_state, result) };
        let submitted = self.backend.read_nonblocking(
            &self.backend_device,
            endpoint,
            buffer,
            callback,
            timeout,
        );
        future_after_submission(future, submitted)
    }

    /// Reads up to `max_length` bytes from an endpoint and returns what was read.
    pub fn read_to_vec(&mut self, endpoint: u8, max_length: usize, timeout: Option<Duration>) -> (r:
        UsbResult<Vec<u8>>)
        ensures
            r is Ok ==> r->Ok_0@.len() <= max_length,
    {
        let mut buffer: Vec<u8> = vec![0; max_length];
        let read = self.read(endpoint, buffer.as_mut_slice(), timeout);
        truncate_to_read(buffer, read)
    }

    /// Writes to an endpoint, e.g. a bulk or interrupt write.
    pub fn write(&mut self, endpoint: u8, data: &[u8], timeout: Option<Duration>) -> (r: UsbResult<
        (),
    >)
    {
        self.backend.write(&self.backend_device, endpoint, data, timeout)
    }

    /// Submits a write to an endpoint; `callback` receives the outcome once it completes.
    pub fn write_and_call_back<F: FnOnce(UsbResult<usize>) + Send + 'static>(
        &mut self,
        endpoint: u8,
        data: WriteBuffer,
        callback: F,
        timeout: Option<Duration>,
    ) -> UsbResult<()> {
        self.backend.write_nonblocking(&self.backend_device, endpoint, data, callback, timeout)
    }

    /// Submits a write to an endpoint and returns a future of the length written.
    pub fn write_async(&mut self, endpoint: u8, data: WriteBuffer, timeout: Option<Duration>) -> (r:
        UsbResult<UsbFuture>)
    {
        let future = UsbFuture::new();
        let shared_state = future.clone_state();
        let callback = move |result: UsbResult<usize>| { complete_shared(&shared_state, result) };
        let submitted = self.backend.write_nonblocking(
            &self.backend_device,
            endpoint,
            data,
            callback,
            timeout,
        );
        future_after_submission(future, submitted)
    }
}

} // verus!
