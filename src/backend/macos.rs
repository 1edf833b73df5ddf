//! The macOS backend: its resource model and the decisions it takes around IOKit calls.
//!
//! The backend is written against the [`iokit::IoKit`] services, so every IOKit outcome
//! is handled as it comes; the raw calls are made by the implementation of those services.

pub mod device;
pub mod endpoint;
pub mod enumeration;
pub mod event_loop;
pub mod iokit;
pub mod status;

use std::time::Duration;
use std::time::SystemTime;

use vstd::prelude::*;

use crate::backend::macos::device::MacOsDevice;
use crate::backend::macos::endpoint::{address_for_in_endpoint, address_for_out_endpoint};
use crate::backend::macos::enumeration::{enumerate_devices, is_location, locate_device};
use crate::backend::macos::iokit::{ControlSetup, IoKit};
use crate::backend::macos::status::{
    error_for_io_return, from_io_return, io_return_to_error, to_iokit_timeout,
    IO_RETURN_NO_RESOURCES, IO_RETURN_SUCCESS,
};
use crate::backend::{
    buffer_length, control_length, Backend, BackendDevice, ReadBuffer, WriteBuffer,
    MAX_CONTROL_LENGTH,
};
use crate::device::DeviceInformation;
use crate::error::{Error, UsbResult};

verus! {

/// How many times opening a device tries again after IOKit reports a resource shortage.
/// Freshly plugged devices report it while the OS decides which driver binds to them.
pub const OPEN_ATTEMPTS: usize = 5;

/// What one attempt at creating a device object leads to.
pub enum PluginOutcome<D> {
    /// IOKit reported a transient resource shortage: try again.
    Retry,
    /// Opening fails with this error.
    Failed(Error),
    /// The device object was created.
    Created(D),
}

/// Classifies the outcome of creating a device object from its service.
pub fn classify_device_plugin<D>(created: Result<Option<D>, i32>) -> (r: PluginOutcome<D>)
    ensures
        created is Err && created->Err_0 == IO_RETURN_NO_RESOURCES ==> r is Retry,
        created is Err && created->Err_0 != IO_RETURN_NO_RESOURCES ==> r
            == PluginOutcome::<D>::Failed(Error::OsError(created->Err_0 as i64)),
        created == Ok::<Option<D>, i32>(None) ==> r == PluginOutcome::<D>::Failed(
            Error::UnspecifiedOsError,
        ),
        created is Ok && created->Ok_0 is Some ==> r == PluginOutcome::<D>::Created(
            created->Ok_0->0,
        ),
{
    match created {
        Err(rc) => {
            if rc == IO_RETURN_NO_RESOURCES {
                PluginOutcome::Retry
            } else {
                PluginOutcome::Failed(Error::OsError(rc as i64))
            }
        },
        Ok(None) => PluginOutcome::Failed(Error::UnspecifiedOsError),
        Ok(Some(device)) => PluginOutcome::Created(device),
    }
}

/// What opening does after one attempt at creating the device object.
pub enum OpenStep<D> {
    /// Wait briefly and try again.
    TryAgain,
    /// Opening ends with this error.
    Finish(Error),
    /// Go on to open the created device object.
    Proceed(D),
}

/// Decides what follows attempt `attempt` (counted from 0): a resource shortage is retried
/// until `OPEN_ATTEMPTS` attempts were made, after which the device is not found.
pub fn next_open_step<D>(attempt: usize, outcome: PluginOutcome<D>) -> (r: OpenStep<D>)
    requires
        attempt < OPEN_ATTEMPTS,
    ensures
        outcome is Retry && attempt + 1 < OPEN_ATTEMPTS ==> r is TryAgain,
        outcome is Retry && attempt + 1 >= OPEN_ATTEMPTS ==> r == OpenStep::<D>::Finish(
            Error::DeviceNotFound,
        ),
        outcome is Failed ==> r == OpenStep::<D>::Finish(outcome->Failed_0),
        outcome is Created ==> r == OpenStep::<D>::Proceed(outcome->Created_0),
{
    match outcome {
        PluginOutcome::Retry => {
            if attempt + 1 < OPEN_ATTEMPTS {
                OpenStep::TryAgain
            } else {
                OpenStep::Finish(Error::DeviceNotFound)
            }
        },
        PluginOutcome::Failed(e) => OpenStep::Finish(e),
        PluginOutcome::Created(device) => OpenStep::Proceed(device),
    }
}

/// The setup stage handed to IOKit for a control request.
pub fn control_setup(request_type: u8, request_number: u8, value: u16, index: u16, length: u16) -> (r:
    ControlSetup)
    ensures
        r == (ControlSetup { request_type, request: request_number, value, index, length }),
{
    ControlSetup { request_type, request: request_number, value, index, length }
}

/// Translates the outcome of creating an interface object into the library's taxonomy.
pub fn interface_from_plugin<I>(created: Result<Option<I>, i32>) -> (r: UsbResult<I>)
    ensures
        created is Err ==> r == Err::<I, Error>(error_for_io_return(created->Err_0)),
        created == Ok::<Option<I>, i32>(None) ==> r == Err::<I, Error>(Error::UnspecifiedOsError),
        created is Ok && created->Ok_0 is Some ==> r == Ok::<I, Error>(created->Ok_0->0),
{
    match created {
        Err(rc) => Err(io_return_to_error(rc)),
        Ok(None) => Err(Error::UnspecifiedOsError),
        Ok(Some(interface)) => Ok(interface),
    }
}

/// Decides what an interface becomes in the device's interface map: an interface the OS
/// denies access to becomes a placeholder (`None`) instead of failing the whole device.
pub fn interface_slot<I>(created: UsbResult<I>) -> (r: UsbResult<Option<I>>)
    ensures
        created == Err::<I, Error>(Error::PermissionDenied) ==> r == Ok::<Option<I>, Error>(None),
        created is Err && created->Err_0 != Error::PermissionDenied ==> r == Err::<
            Option<I>,
            Error,
        >(created->Err_0),
        created is Ok ==> r == Ok::<Option<I>, Error>(Some(created->Ok_0)),
{
    match created {
        Err(Error::PermissionDenied) => Ok(None),
        Err(e) => Err(e),
        Ok(interface) => Ok(Some(interface)),
    }
}

/// Whether an interface's creation outcome lets the device keep the interface: it was
/// created, or access to it was denied and it becomes a placeholder.
pub open spec fn keeps_interface<I>(outcome: UsbResult<I>) -> bool {
    outcome is Ok || outcome == Err::<I, Error>(Error::PermissionDenied)
}

/// Decides the interface map of a device from the creation outcomes of its interfaces, in
/// order: each interface gets an entry, a placeholder (`None`) where access was denied;
/// any other failure ends the walk with that failure.
pub fn interface_slots<I>(outcomes: Vec<UsbResult<I>>) -> (r: UsbResult<Vec<Option<I>>>)
    ensures
        r is Ok <==> forall|i: int| 0 <= i < outcomes@.len() ==> keeps_interface(
            #[trigger] outcomes@[i],
        ),
        r is Ok ==> r->Ok_0@.len() == outcomes@.len(),
        r is Ok ==> forall|i: int|
            0 <= i < outcomes@.len() ==> ((#[trigger] r->Ok_0@[i] is None) <==> outcomes@[i]
                == Err::<I, Error>(Error::PermissionDenied)),
        r is Ok ==> forall|i: int|
            0 <= i < outcomes@.len() && (#[trigger] outcomes@[i]) is Ok ==> r->Ok_0@[i] == Some(
                outcomes@[i]->Ok_0,
            ),
        r is Err ==> exists|k: int|
            0 <= k < outcomes@.len() && #[trigger] outcomes@[k] == Err::<I, Error>(r->Err_0)
                && r->Err_0 != Error::PermissionDenied && forall|j: int|
                0 <= j < k ==> keeps_interface(#[trigger] outcomes@[j]),
{
    let ghost all = outcomes@;
    let mut remaining = outcomes;
    let mut slots: Vec<Option<I>> = Vec::new();
    while remaining.len() > 0
        invariant
            all == outcomes@,
            slots@.len() + remaining@.len() == all.len(),
            remaining@ == all.subrange(slots@.len() as int, all.len() as int),
            forall|i: int| 0 <= i < slots@.len() ==> keeps_interface(#[trigger] all[i]),
            forall|i: int|
                0 <= i < slots@.len() ==> ((#[trigger] slots@[i] is None) <==> all[i] == Err::<
                    I,
                    Error,
                >(Error::PermissionDenied)),
            forall|i: int|
                0 <= i < slots@.len() && (#[trigger] all[i]) is Ok ==> slots@[i] == Some(
                    all[i]->Ok_0,
                ),
        decreases remaining.len(),
    {
        let ghost k = slots@.len() as int;
        let ghost before = remaining@;
        let outcome = remaining.remove(0);
        assert(outcome == all[k]);
        assert(remaining@ =~= all.subrange(k + 1, all.len() as int));
        match outcome {
            Err(Error::PermissionDenied) => slots.push(None),
            Err(e) => {
                assert(!keeps_interface(all[k]));
                return Err(e);
            },
            Ok(interface) => slots.push(Some(interface)),
        }
    }
    Ok(slots)
}

/// Turns an optional timeout into IOKit's millisecond unit.
pub fn iokit_timeout(timeout: &Option<Duration>) -> (r: Option<u32>)
    ensures
        r is Some == timeout is Some,
{
    match timeout {
        Some(t) => Some(to_iokit_timeout(t)),
        None => None,
    }
}

/// The result of a completed control or pipe read: a length beyond the buffer overruns it.
pub fn read_length(outcome: Result<u32, i32>, buffer_length: usize) -> (r: UsbResult<usize>)
    ensures
        outcome is Err ==> r == Err::<usize, Error>(error_for_io_return(outcome->Err_0)),
        outcome is Ok && outcome->Ok_0 <= buffer_length ==> r == Ok::<usize, Error>(
            outcome->Ok_0 as usize,
        ),
        outcome is Ok && outcome->Ok_0 > buffer_length ==> r == Err::<usize, Error>(Error::Overrun),
{
    match outcome {
        Err(rc) => Err(io_return_to_error(rc)),
        Ok(n) => {
            if n as usize > buffer_length {
                Err(Error::Overrun)
            } else {
                Ok(n as usize)
            }
        },
    }
}

/// The macOS backend, over the IOKit services `K`.
pub struct MacOsBackend<K: IoKit> {
    /// The IOKit services every operation goes through.
    iokit: K,
}

impl<K: IoKit> MacOsBackend<K> {
    /// Creates the backend over the given IOKit services.
    pub fn new(iokit: K) -> (r: UsbResult<MacOsBackend<K>>)
        ensures
            r is Ok,
    {
        Ok(MacOsBackend { iokit })
    }

    /// Reads the endpoints of an interface object: for each pipe reference, the endpoint's
    /// direction and number. The interface is opened briefly for each, as IOKit requires.
    /// Stops at the first failure, keeping what was read before it.
    fn endpoints_of(&self, interface: &K::Interface) -> (r: Vec<(u8, u8, u8)>)
        ensures
            r@.len() < 256,
            forall|i: int| 0 <= i < r@.len() ==> (#[trigger] r@[i]).2 == i + 1,
    {
        let mut endpoints: Vec<(u8, u8, u8)> = Vec::new();
        let count = match self.iokit.endpoint_count(interface) {
            Ok(count) => count,
            Err(_) => {
                return endpoints;
            },
        };
        let mut pipe_ref: u8 = 1;
        while pipe_ref <= count
            invariant
                1 <= pipe_ref,
                endpoints@.len() == pipe_ref - 1,
                forall|i: int| 0 <= i < endpoints@.len() ==> (#[trigger] endpoints@[i]).2 == i + 1,
            decreases count as int + 1 - pipe_ref,
        {
            if from_io_return(self.iokit.open_interface(interface)).is_err() {
                return endpoints;
            }
            let properties = self.iokit.endpoint_properties(interface, pipe_ref);
            self.iokit.close_interface(interface);
            match properties {
                Ok((direction, number)) => endpoints.push((direction, number, pipe_ref)),
                Err(_) => {
                    return endpoints;
                },
            }
            if pipe_ref == u8::MAX {
                return endpoints;
            }
            pipe_ref = pipe_ref + 1;
        }
        endpoints
    }

    /// Walks the device's interfaces: creates each interface object, decides the interface
    /// map from the outcomes (see [`interface_slots`]), then tracks each interface unclaimed
    /// with its endpoints and gathers its notification source. Interface numbers are one
    /// byte, so interfaces past the 256th are not tracked.
    fn populate_interfaces(&self, device: &mut MacOsDevice<K>, sources: &mut Vec<K::EventSource>) -> (r:
        UsbResult<()>)
        requires
            old(device).is_consistent(),
            old(device).interface_count() == 0,
        ensures
            final(device).is_consistent(),
            final(device).os_device() == old(device).os_device(),
            final(device).interface_count() <= 256,
            r is Ok ==> forall|i: int|
                0 <= i < final(device).interface_count() ==> !final(device).is_claimed(i),
    {
        let services = match self.iokit.interface_services(device.os_device_ref()) {
            Ok(services) => services,
            Err(rc) => {
                return Err(io_return_to_error(rc));
            },
        };
        let mut outcomes: Vec<UsbResult<K::Interface>> = Vec::new();
        let mut index: usize = 0;
        while index < services.len() && index < 256
            invariant
                outcomes@.len() == index,
                index <= 256,
            decreases services@.len() - index,
        {
            outcomes.push(interface_from_plugin(self.iokit.create_interface(&services[index])));
            index = index + 1;
        }
        let mut slots = interface_slots(outcomes)?;
        while slots.len() > 0
            invariant
                device.is_consistent(),
                device.os_device() == old(device).os_device(),
                device.interface_count() + slots@.len() <= 256,
                forall|i: int| 0 <= i < device.interface_count() ==> !device.is_claimed(i),
            decreases slots.len(),
        {
            let slot = slots.remove(0);
            let endpoints = match &slot {
                Some(interface) => {
                    match self.iokit.interface_event_source(interface) {
                        Ok(source) => sources.push(source),
                        Err(rc) => {
                            return Err(io_return_to_error(rc));
                        },
                    }
                    self.endpoints_of(interface)
                },
                None => Vec::new(),
            };
            device.track_interface(slot, &endpoints);
        }
        Ok(())
    }

    /// Opens the device behind a device service, retrying a transient resource shortage a
    /// bounded number of times, then tracks its interfaces and starts its event loop.
    fn open_usb_device_from_io_device(&self, service: &K::Service) -> (r: UsbResult<MacOsDevice<K>>)
        ensures
            r is Ok ==> r->Ok_0.is_consistent(),
    {
        let mut attempt: usize = 0;
        loop
            invariant
                attempt < OPEN_ATTEMPTS,
            decreases OPEN_ATTEMPTS - attempt,
        {
            match next_open_step(attempt, classify_device_plugin(self.iokit.create_device(service))) {
                OpenStep::TryAgain => {
                    self.iokit.pause();
                    attempt = attempt + 1;
                },
                OpenStep::Finish(e) => {
                    return Err(e);
                },
                OpenStep::Proceed(object) => {
                    let mut device = MacOsDevice::new(object);
                    from_io_return(self.iokit.open_device(device.os_device_ref()))?;
                    let mut sources: Vec<K::EventSource> = Vec::new();
                    match self.iokit.device_event_source(device.os_device_ref()) {
                        Ok(source) => sources.push(source),
                        Err(rc) => {
                            return Err(io_return_to_error(rc));
                        },
                    }
                    self.populate_interfaces(&mut device, &mut sources)?;
                    self.iokit.start_event_loop(device.os_device_ref(), sources);
                    return Ok(device);
                },
            }
        }
    }

    /// Opens the enumerated device whose location ID equals the information's locator.
    /// Information without a locator, or whose locator no present device has, is not found.
    pub fn open_usb_device(&self, information: &DeviceInformation) -> (r: UsbResult<
        MacOsDevice<K>,
    >)
        ensures
            information.backend_numeric_location is None ==> r == Err::<MacOsDevice<K>, Error>(
                Error::DeviceNotFound,
            ),
            r is Ok ==> r->Ok_0.is_consistent(),
    {
        if information.backend_numeric_location.is_none() {
            return Err(Error::DeviceNotFound);
        }
        let services = match self.iokit.device_services() {
            Err(rc) => {
                return Err(Error::OsError(rc as i64));
            },
            Ok(None) => {
                return Err(Error::DeviceNotFound);
            },
            Ok(Some(services)) => services,
        };
        let mut locations: Vec<Option<u64>> = Vec::new();
        let mut i: usize = 0;
        while i < services.len()
            invariant
                0 <= i <= services@.len(),
                locations@.len() == i,
            decreases services@.len() - i,
        {
            locations.push(self.iokit.numeric_property(&services[i], "locationID"));
            i = i + 1;
        }
        let index = locate_device(&locations, information.backend_numeric_location)?;
        self.open_usb_device_from_io_device(&services[index])
    }

    /// Issues a control request whose data stage reads into `data`.
    fn control_in(
        &self,
        device: &MacOsDevice<K>,
        setup: ControlSetup,
        data: &mut [u8],
        timeout: &Option<Duration>,
    ) -> (r: UsbResult<usize>)
        ensures
            r is Ok ==> r->Ok_0 <= old(data)@.len(),
    {
        let length = data.len();
        let outcome = self.iokit.device_request_in(
            device.os_device_ref(),
            setup,
            data,
            iokit_timeout(timeout),
        );
        read_length(outcome, length)
    }
}

/// Whether the endpoint at `address` of `device` lives on a permission-denied placeholder.
pub open spec fn on_placeholder<K: IoKit>(device: MacOsDevice<K>, address: u8) -> bool {
    device.is_consistent() && device.endpoints().contains_key(address) && device.is_placeholder(
        device.endpoints()[address].interface_number as int,
    )
}

impl<K: IoKit> Backend for MacOsBackend<K> {
    type DeviceData = MacOsDevice<K>;

    open spec fn refuses_open(&self, information: DeviceInformation) -> bool {
        information.backend_numeric_location is None
    }

    open spec fn denies_claim(&self, device: MacOsDevice<K>, interface: u8) -> bool {
        (interface as int) < device.interface_count() && device.is_placeholder(interface as int)
    }

    fn get_devices(&self) -> (r: UsbResult<Vec<DeviceInformation>>)
        ensures
            r is Ok ==> forall|i: int|
                0 <= i < r->Ok_0@.len() ==> is_location(
                    #[trigger] r->Ok_0@[i].backend_numeric_location,
                ),
    {
        enumerate_devices(&self.iokit)
    }

    fn open(&self, information: &DeviceInformation) -> (r: UsbResult<MacOsDevice<K>>)
        ensures
            information.backend_numeric_location is None ==> r == Err::<MacOsDevice<K>, Error>(
                Error::DeviceNotFound,
            ),
            r is Ok ==> r->Ok_0.is_consistent(),
    {
        self.open_usb_device(information)
    }

    fn release_kernel_driver(&self, device: &mut MacOsDevice<K>, interface: u8) -> (r: UsbResult<()>)
        ensures
            r == Err::<(), Error>(Error::Unsupported),
            *final(device) == *old(device),
    {
        // IOKit offers user space no way of detaching a kernel driver.
        Err(Error::Unsupported)
    }

    fn claim_interface(&self, device: &mut MacOsDevice<K>, interface: u8) -> (r: UsbResult<()>)
        ensures
            old(device).is_consistent() ==> final(device).is_consistent(),
            final(device).interface_count() == old(device).interface_count(),
            final(device).endpoints() == old(device).endpoints(),
            (interface as int) >= old(device).interface_count() ==> r == Err::<(), Error>(
                Error::InvalidArgument,
            ) && *final(device) == *old(device),
            (interface as int) < old(device).interface_count() && old(device).is_placeholder(
                interface as int,
            ) ==> r == Err::<(), Error>(Error::PermissionDenied) && *final(device) == *old(device),
            old(device).is_consistent() && (interface as int) < old(device).interface_count()
                && old(device).is_claimed(interface as int) ==> r == Ok::<(), Error>(())
                && *final(device) == *old(device),
            old(device).is_consistent() && (interface as int) < old(device).interface_count() ==> (
            final(device).is_claimed(interface as int) <==> r is Ok),
            old(device).is_consistent() ==> forall|i: int|
                0 <= i < old(device).interface_count() && i != interface ==> (final(device).is_claimed(i) == old(device).is_claimed(i)),
    {
        device.claim(&self.iokit, interface)
    }

    fn unclaim_interface(&self, device: &mut MacOsDevice<K>, interface: u8) -> (r: UsbResult<()>)
        ensures
            old(device).is_consistent() ==> final(device).is_consistent(),
            final(device).interface_count() == old(device).interface_count(),
            final(device).endpoints() == old(device).endpoints(),
            (interface as int) >= old(device).interface_count() ==> r == Err::<(), Error>(
                Error::InvalidArgument,
            ),
            old(device).is_consistent() && (interface as int) < old(device).interface_count()
                && !old(device).is_claimed(interface as int) ==> r == Ok::<(), Error>(()) && *final(
                device) == *old(device),
            old(device).is_consistent() && (interface as int) < old(device).interface_count() ==> (r
                is Ok <==> !final(device).is_claimed(interface as int)),
            old(device).is_consistent() ==> forall|i: int|
                0 <= i < old(device).interface_count() && i != interface ==> (final(device).is_claimed(i) == old(device).is_claimed(i)),
    {
        device.unclaim(&self.iokit, interface)
    }

    fn active_configuration(&self, device: &MacOsDevice<K>) -> UsbResult<u8> {
        match self.iokit.get_configuration(device.os_device_ref()) {
            Ok(configuration) => Ok(configuration),
            Err(rc) => Err(io_return_to_error(rc)),
        }
    }

    fn set_active_configuration(&self, device: &MacOsDevice<K>, configuration_index: u8) -> UsbResult<()> {
        from_io_return(self.iokit.set_configuration(device.os_device_ref(), configuration_index))
    }

    fn reset_device(&self, device: &MacOsDevice<K>) -> UsbResult<()> {
        from_io_return(self.iokit.reset_device(device.os_device_ref()))
    }

    fn clear_stall(&self, device: &MacOsDevice<K>, endpoint_address: u8) -> (r: UsbResult<()>)
        ensures
            !device.endpoints().contains_key(endpoint_address) ==> r == Err::<(), Error>(
                Error::InvalidEndpoint,
            ),
            on_placeholder(*device, endpoint_address) ==> r == Err::<(), Error>(
                Error::PermissionDenied,
            ),
    {
        let (pipe_ref, interface) = device.pipe_for_endpoint(endpoint_address)?;
        from_io_return(self.iokit.clear_pipe_stall(interface, pipe_ref))
    }

    fn set_alternate_setting(&self, device: &MacOsDevice<K>, interface: u8, setting: u8) -> (r:
        UsbResult<()>)
        ensures
            (interface as int) >= device.interface_count() ==> r == Err::<(), Error>(
                Error::InvalidInterface,
            ),
            (interface as int) < device.interface_count() && device.is_placeholder(interface as int)
                ==> r == Err::<(), Error>(Error::PermissionDenied),
    {
        let object = device.interface_for_operation(interface)?;
        from_io_return(self.iokit.set_alternate_interface(object, setting))
    }

    fn current_bus_frame(&self, device: &MacOsDevice<K>) -> (r: UsbResult<(u64, SystemTime)>)
        ensures
            r is Err && r->Err_0 == Error::Unsupported,
    {
        // IOKit reports the frame time as an AbsoluteTime, whose epoch and unit are not
        // documented well enough to convert it to a SystemTime.
        Err(Error::Unsupported)
    }

    fn control_read(
        &self,
        device: &MacOsDevice<K>,
        request_type: u8,
        request_number: u8,
        value: u16,
        index: u16,
        target: &mut [u8],
        timeout: Option<Duration>,
    ) -> (r: UsbResult<usize>)
        ensures
            old(target)@.len() > MAX_CONTROL_LENGTH ==> r == Err::<usize, Error>(Error::Overrun)
                && final(target)@ == old(target)@,
    {
        let length = control_length(Some(target.len()))?;
        let setup = control_setup(request_type, request_number, value, index, length);
        self.control_in(device, setup, target, &timeout)
    }

    fn control_read_nonblocking<F: FnOnce(UsbResult<usize>) + Send + 'static>(
        &self,
        device: &MacOsDevice<K>,
        request_type: u8,
        request_number: u8,
        value: u16,
        index: u16,
        target: ReadBuffer,
        callback: F,
        timeout: Option<Duration>,
    ) -> (r: UsbResult<()>)
        ensures
            r is Err ==> r->Err_0 == Error::InvalidArgument || r->Err_0 == Error::Overrun
                || exists|rc: i32| rc != IO_RETURN_SUCCESS && r->Err_0 == error_for_io_return(rc),
    {
        let length = control_length(buffer_length(&target))?;
        let setup = control_setup(request_type, request_number, value, index, length);
        from_io_return(
            self.iokit.device_request_in_async(
                device.os_device_ref(),
                setup,
                target,
                callback,
                iokit_timeout(&timeout),
            ),
        )
    }

    fn control_write(
        &self,
        device: &MacOsDevice<K>,
        request_type: u8,
        request_number: u8,
        value: u16,
        index: u16,
        data: &[u8],
        timeout: Option<Duration>,
    ) -> (r: UsbResult<()>)
        ensures
            data@.len() > MAX_CONTROL_LENGTH ==> r == Err::<(), Error>(Error::Overrun),
    {
        let length = control_length(Some(data.len()))?;
        let setup = control_setup(request_type, request_number, value, index, length);
        match self.iokit.device_request_out(
            device.os_device_ref(),
            setup,
            data,
            iokit_timeout(&timeout),
        ) {
            Ok(_) => Ok(()),
            Err(rc) => Err(io_return_to_error(rc)),
        }
    }

    fn control_write_nonblocking<F: FnOnce(UsbResult<usize>) + Send + 'static>(
        &self,
        device: &MacOsDevice<K>,
        request_type: u8,
        request_number: u8,
        value: u16,
        index: u16,
        data: WriteBuffer,
        callback: F,
        timeout: Option<Duration>,
    ) -> (r: UsbResult<()>)
        ensures
            data@.len() > MAX_CONTROL_LENGTH ==> r == Err::<(), Error>(Error::Overrun),
    {
        let length = control_length(Some(data.len()))?;
        let setup = control_setup(request_type, request_number, value, index, length);
        from_io_return(
            self.iokit.device_request_out_async(
                device.os_device_ref(),
                setup,
                data,
                callback,
                iokit_timeout(&timeout),
            ),
        )
    }

    fn read(
        &self,
        device: &MacOsDevice<K>,
        endpoint: u8,
        buffer: &mut [u8],
        timeout: Option<Duration>,
    ) -> (r: UsbResult<usize>)
        ensures
            !device.endpoints().contains_key(endpoint | 0x80) ==> r == Err::<usize, Error>(
                Error::InvalidEndpoint,
            ),
            on_placeholder(*device, endpoint | 0x80) ==> r == Err::<usize, Error>(
                Error::PermissionDenied,
            ),
    {
        let (pipe_ref, interface) = device.pipe_for_endpoint(address_for_in_endpoint(endpoint))?;
        let length = buffer.len();
        let outcome = self.iokit.read_pipe(interface, pipe_ref, buffer, iokit_timeout(&timeout));
        read_length(outcome, length)
    }

    fn write(
        &self,
        device: &MacOsDevice<K>,
        endpoint: u8,
        data: &[u8],
        timeout: Option<Duration>,
    ) -> (r: UsbResult<()>)
        ensures
            !device.endpoints().contains_key(endpoint) ==> r == Err::<(), Error>(
                Error::InvalidEndpoint,
            ),
            on_placeholder(*device, endpoint) ==> r == Err::<(), Error>(Error::PermissionDenied),
    {
        let (pipe_ref, interface) = device.pipe_for_endpoint(address_for_out_endpoint(endpoint))?;
        from_io_return(self.iokit.write_pipe(interface, pipe_ref, data, iokit_timeout(&timeout)))
    }

    fn read_nonblocking<F: FnOnce(UsbResult<usize>) + Send + 'static>(
        &self,
        device: &MacOsDevice<K>,
        endpoint: u8,
        buffer: ReadBuffer,
        callback: F,
        timeout: Option<Duration>,
    ) -> (r: UsbResult<()>)
        ensures
            !device.endpoints().contains_key(endpoint | 0x80) ==> r == Err::<(), Error>(
                Error::InvalidEndpoint,
            ),
            on_placeholder(*device, endpoint | 0x80) ==> r == Err::<(), Error>(
                Error::PermissionDenied,
            ),
    {
        let (pipe_ref, interface) = device.pipe_for_endpoint(address_for_in_endpoint(endpoint))?;
        from_io_return(
            self.iokit.read_pipe_async(interface, pipe_ref, buffer, callback, iokit_timeout(&timeout)),
        )
    }

    fn write_nonblocking<F: FnOnce(UsbResult<usize>) + Send + 'static>(
        &self,
        device: &MacOsDevice<K>,
        endpoint: u8,
        data: WriteBuffer,
        callback: F,
        timeout: Option<Duration>,
    ) -> (r: UsbResult<()>)
        ensures
            !device.endpoints().contains_key(endpoint) ==> r == Err::<(), Error>(
                Error::InvalidEndpoint,
            ),
            on_placeholder(*device, endpoint) ==> r == Err::<(), Error>(Error::PermissionDenied),
    {
        let (pipe_ref, interface) = device.pipe_for_endpoint(address_for_out_endpoint(endpoint))?;
        from_io_return(
            self.iokit.write_pipe_async(interface, pipe_ref, data, callback, iokit_timeout(&timeout)),
        )
    }
}

} // verus!
