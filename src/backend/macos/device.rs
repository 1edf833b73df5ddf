//! The per-device resource model of the macOS backend: the device object, its
//! interfaces with their claim state, and the endpoint map.

use std::collections::HashMap;

use vstd::prelude::*;

use crate::backend::macos::endpoint::{address_for_in_endpoint, address_for_out_endpoint};
use crate::backend::macos::iokit::IoKit;
use crate::backend::macos::status::{
    error_for_io_return, from_io_return, outcome_of_io_return, IO_RETURN_SUCCESS,
};
use crate::backend::BackendDevice;
use crate::error::{Error, UsbResult};

verus! {

broadcast use vstd::std_specs::hash::group_hash_axioms;

/// Where an endpoint lives: its interface and its pipe reference within that interface.
#[derive(Debug, Clone, Copy, PartialEq, Eq, Structural)]
pub struct EndpointInformation {
    /// The number of the interface the endpoint belongs to.
    pub interface_number: u8,
    /// IOKit's one-based index of the endpoint within its interface.
    pub pipe_ref: u8,
}

/// The endpoint address of an endpoint with the given direction (0 for OUT) and number.
pub open spec fn endpoint_address(direction: u8, number: u8) -> u8 {
    if direction == 0 {
        number
    } else {
        number | 0x80
    }
}

/// Computes the endpoint address of an endpoint with the given direction and number.
pub fn address_for_endpoint(direction: u8, number: u8) -> (r: u8)
    ensures
        r == endpoint_address(direction, number),
{
    if direction == 0 {
        address_for_out_endpoint(number)
    } else {
        address_for_in_endpoint(number)
    }
}

/// The endpoint map after recording, in order, the endpoints `(direction, number, pipe_ref)`
/// of interface `interface_number`; a later endpoint with the same address replaces an
/// earlier one.
pub open spec fn with_endpoints(
    map: Map<u8, EndpointInformation>,
    interface_number: u8,
    endpoints: Seq<(u8, u8, u8)>,
) -> Map<u8, EndpointInformation>
    decreases endpoints.len(),
{
    if endpoints.len() == 0 {
        map
    } else {
        let last = endpoints.last();
        with_endpoints(map, interface_number, endpoints.drop_last()).insert(
            endpoint_address(last.0, last.1),
            EndpointInformation { interface_number, pipe_ref: last.2 },
        )
    }
}

/// The state of an opened macOS device.
pub struct MacOsDevice<K: IoKit> {
    /// The device object; operations on the whole device (e.g. EP0) use it.
    device: K::Device,
    /// The interfaces, indexed by interface number. `None` is a placeholder for an
    /// interface the OS would not let us open: every operation on it is denied.
    interfaces: Vec<Option<K::Interface>>,
    /// Whether each interface is currently claimed (open).
    claimed: Vec<bool>,
    /// Where each endpoint address lives.
    endpoint_metadata: HashMap<u8, EndpointInformation>,
}

impl<K: IoKit> BackendDevice for MacOsDevice<K> {}

impl<K: IoKit> MacOsDevice<K> {
    /// The number of interfaces tracked.
    pub closed spec fn interface_count(&self) -> nat {
        self.interfaces@.len()
    }

    /// Whether interface `i` is a permission-denied placeholder.
    pub closed spec fn is_placeholder(&self, i: int) -> bool {
        self.interfaces@[i] is None
    }

    /// Whether interface `i` is claimed.
    pub closed spec fn is_claimed(&self, i: int) -> bool {
        self.claimed@[i]
    }

    /// The endpoint map.
    pub closed spec fn endpoints(&self) -> Map<u8, EndpointInformation> {
        self.endpoint_metadata@
    }

    /// The device object.
    pub closed spec fn os_device(&self) -> K::Device {
        self.device
    }

    /// Every endpoint belongs to a tracked interface, and no placeholder is claimed.
    pub closed spec fn is_consistent(&self) -> bool {
        &&& self.interfaces@.len() == self.claimed@.len()
        &&& self.interfaces@.len() <= 256
        &&& forall|a: u8| #[trigger]
            self.endpoint_metadata@.contains_key(a) ==> (self.endpoint_metadata@[a].interface_number
                as int) < self.interfaces@.len()
        &&& forall|i: int|
            0 <= i < self.interfaces@.len() && #[trigger] self.interfaces@[i] is None
                ==> !self.claimed@[i]
    }

    /// Creates the state of a device that has no interfaces yet.
    pub fn new(device: K::Device) -> (r: Self)
        ensures
            r.is_consistent(),
            r.interface_count() == 0,
            r.endpoints().is_empty(),
            r.os_device() == device,
    {
        MacOsDevice {
            device,
            interfaces: Vec::new(),
            claimed: Vec::new(),
            endpoint_metadata: HashMap::new(),
        }
    }

    /// The device object.
    pub fn os_device_ref(&self) -> (r: &K::Device)
        ensures
            *r == self.os_device(),
    {
        &self.device
    }

    /// The number of interfaces tracked.
    pub fn interface_total(&self) -> (r: usize)
        ensures
            r == self.interface_count(),
    {
        self.interfaces.len()
    }

    /// Tracks the next interface, unclaimed; `None` tracks a permission-denied placeholder.
    pub fn push_interface(&mut self, interface: Option<K::Interface>)
        requires
            old(self).is_consistent(),
            old(self).interface_count() < 256,
        ensures
            final(self).is_consistent(),
            final(self).interface_count() == old(self).interface_count() + 1,
            final(self).is_placeholder(old(self).interface_count() as int) == (interface is None),
            !final(self).is_claimed(old(self).interface_count() as int),
            forall|i: int|
                0 <= i < old(self).interface_count() ==> (final(self).is_placeholder(i)
                    == old(self).is_placeholder(i) && final(self).is_claimed(i)
                    == old(self).is_claimed(i)),
            final(self).endpoints() == old(self).endpoints(),
            final(self).os_device() == old(self).os_device(),
    {
        self.interfaces.push(interface);
        self.claimed.push(false);
        assert forall|i: int|
            0 <= i < self.interfaces@.len() && #[trigger] self.interfaces@[i] is None
                implies !self.claimed@[i] by {
            if i < self.interfaces@.len() - 1 {
                assert(old(self).interfaces@[i] is None);
            }
        }
    }

    /// Records that the endpoint with the given direction and number lives behind
    /// `pipe_ref` of interface `interface_number`.
    pub fn add_endpoint(&mut self, interface_number: u8, direction: u8, number: u8, pipe_ref: u8)
        requires
            old(self).is_consistent(),
            (interface_number as int) < old(self).interface_count(),
        ensures
            final(self).is_consistent(),
            final(self).endpoints() == old(self).endpoints().insert(
                endpoint_address(direction, number),
                EndpointInformation { interface_number, pipe_ref },
            ),
            final(self).interface_count() == old(self).interface_count(),
            forall|i: int|
                0 <= i < old(self).interface_count() ==> (final(self).is_placeholder(i)
                    == old(self).is_placeholder(i) && final(self).is_claimed(i)
                    == old(self).is_claimed(i)),
            final(self).os_device() == old(self).os_device(),
    {
        let address = address_for_endpoint(direction, number);
        self.endpoint_metadata.insert(address, EndpointInformation { interface_number, pipe_ref });
    }

    /// Tracks the next interface, unclaimed, and records its endpoints. `None` tracks a
    /// permission-denied placeholder, which has no endpoints.
    pub fn track_interface(&mut self, interface: Option<K::Interface>, endpoints: &Vec<(u8, u8, u8)>)
        requires
            old(self).is_consistent(),
            old(self).interface_count() < 256,
        ensures
            final(self).is_consistent(),
            final(self).interface_count() == old(self).interface_count() + 1,
            final(self).is_placeholder(old(self).interface_count() as int) == (interface is None),
            !final(self).is_claimed(old(self).interface_count() as int),
            forall|i: int|
                0 <= i < old(self).interface_count() ==> (final(self).is_placeholder(i)
                    == old(self).is_placeholder(i) && final(self).is_claimed(i)
                    == old(self).is_claimed(i)),
            interface is None ==> final(self).endpoints() == old(self).endpoints(),
            interface is Some ==> final(self).endpoints() == with_endpoints(
                old(self).endpoints(),
                old(self).interface_count() as u8,
                endpoints@,
            ),
            final(self).os_device() == old(self).os_device(),
    {
        let index = self.interfaces.len() as u8;
        let is_placeholder = interface.is_none();
        self.push_interface(interface);
        if is_placeholder {
            return;
        }
        let ghost start = self.endpoints();
        let ghost before = *self;
        let mut e: usize = 0;
        while e < endpoints.len()
            invariant
                self.is_consistent(),
                self.interface_count() == before.interface_count(),
                index as int == before.interface_count() - 1,
                0 <= e <= endpoints@.len(),
                self.endpoints() == with_endpoints(start, index, endpoints@.take(e as int)),
                forall|i: int|
                    0 <= i < before.interface_count() ==> (self.is_placeholder(i)
                        == before.is_placeholder(i) && self.is_claimed(i) == before.is_claimed(i)),
                self.os_device() == before.os_device(),
            decreases endpoints@.len() - e,
        {
            let (direction, number, pipe_ref) = endpoints[e];
            self.add_endpoint(index, direction, number, pipe_ref);
            assert(endpoints@.take(e + 1).drop_last() =~= endpoints@.take(e as int));
            e = e + 1;
        }
        assert(endpoints@.take(endpoints@.len() as int) =~= endpoints@);
    }

    /// Looks up where an endpoint address lives.
    pub fn resources_for_endpoint(&self, address: u8) -> (r: UsbResult<EndpointInformation>)
        ensures
            !self.endpoints().contains_key(address) ==> r == Err::<EndpointInformation, Error>(
                Error::InvalidEndpoint,
            ),
            self.endpoints().contains_key(address) ==> r == Ok::<EndpointInformation, Error>(
                self.endpoints()[address],
            ),
    {
        match self.endpoint_metadata.get(&address) {
            Some(information) => Ok(*information),
            None => Err(Error::InvalidEndpoint),
        }
    }

    /// The interface object of a tracked interface; placeholders deny access.
    pub fn interface_object(&self, interface: u8) -> (r: UsbResult<&K::Interface>)
        requires
            (interface as int) < self.interface_count(),
        ensures
            self.is_placeholder(interface as int) <==> r is Err,
            r is Err ==> r->Err_0 == Error::PermissionDenied,
    {
        match &self.interfaces[interface as usize] {
            Some(object) => Ok(object),
            None => Err(Error::PermissionDenied),
        }
    }

    /// The interface object of interface `interface`, for interface-level operations:
    /// an untracked number is an invalid interface, a placeholder denies access.
    pub fn interface_for_operation(&self, interface: u8) -> (r: UsbResult<&K::Interface>)
        ensures
            (interface as int) >= self.interface_count() ==> r is Err && r->Err_0
                == Error::InvalidInterface,
            (interface as int) < self.interface_count() ==> (r is Err <==> self.is_placeholder(
                interface as int)),
            (interface as int) < self.interface_count() && r is Err ==> r->Err_0
                == Error::PermissionDenied,
    {
        if interface as usize >= self.interfaces.len() {
            return Err(Error::InvalidInterface);
        }
        self.interface_object(interface)
    }

    /// The pipe reference and interface object of an endpoint address.
    pub fn pipe_for_endpoint(&self, address: u8) -> (r: UsbResult<(u8, &K::Interface)>)
        ensures
            !self.endpoints().contains_key(address) ==> r is Err && r->Err_0
                == Error::InvalidEndpoint,
            self.is_consistent() && self.endpoints().contains_key(address) ==> (r is Err
                <==> self.is_placeholder(self.endpoints()[address].interface_number as int)),
            self.is_consistent() && self.endpoints().contains_key(address) && r is Err ==> r->Err_0
                == Error::PermissionDenied,
            r is Ok ==> r->Ok_0.0 == self.endpoints()[address].pipe_ref,
    {
        let information = self.resources_for_endpoint(address)?;
        if information.interface_number as usize >= self.interfaces.len() {
            return Err(Error::InvalidEndpoint);
        }
        let object = self.interface_object(information.interface_number)?;
        Ok((information.pipe_ref, object))
    }

    /// Claims an interface: opens its interface object unless it is already open.
    /// An untracked number is an invalid argument; a placeholder denies access and
    /// stays unclaimed.
    pub fn claim(&mut self, iokit: &K, interface: u8) -> (r: UsbResult<()>)
        ensures
            old(self).is_consistent() ==> final(self).is_consistent(),
            final(self).interface_count() == old(self).interface_count(),
            final(self).endpoints() == old(self).endpoints(),
            final(self).os_device() == old(self).os_device(),
            (interface as int) >= old(self).interface_count() ==> r == Err::<(), Error>(
                Error::InvalidArgument,
            ) && *final(self) == *old(self),
            (interface as int) < old(self).interface_count() && old(self).is_placeholder(
                interface as int,
            ) ==> r == Err::<(), Error>(Error::PermissionDenied) && *final(self) == *old(self),
            old(self).is_consistent() && (interface as int) < old(self).interface_count()
                && old(self).is_claimed(interface as int) ==> r == Ok::<(), Error>(()) && *final(
                self) == *old(self),
            old(self).is_consistent() && (interface as int) < old(self).interface_count() ==> (
            final(self).is_claimed(interface as int) <==> r is Ok),
            old(self).is_consistent() ==> forall|i: int|
                0 <= i < old(self).interface_count() && i != interface ==> (final(self).is_claimed(i)
                    == old(self).is_claimed(i)),
            forall|i: int|
                0 <= i < old(self).interface_count() ==> final(self).is_placeholder(i) == old(self).is_placeholder(i),
    {
        if interface as usize >= self.interfaces.len() {
            return Err(Error::InvalidArgument);
        }
        let index = interface as usize;
        let rc = match &self.interfaces[index] {
            None => {
                return Err(Error::PermissionDenied);
            },
            Some(object) => {
                if index >= self.claimed.len() {
                    return Err(Error::InvalidArgument);
                }
                if self.claimed[index] {
                    return Ok(());
                }
                iokit.open_interface(object)
            },
        };
        let outcome = from_io_return(rc);
        if outcome.is_ok() {
            self.claimed.set(index, true);
        }
        outcome
    }

    /// Releases the claim on an interface: closes its interface object if it is open. The
    /// claim ends exactly when the close succeeds; a failed close is reported. An untracked
    /// number is an invalid argument.
    pub fn unclaim(&mut self, iokit: &K, interface: u8) -> (r: UsbResult<()>)
        ensures
            old(self).is_consistent() ==> final(self).is_consistent(),
            final(self).interface_count() == old(self).interface_count(),
            final(self).endpoints() == old(self).endpoints(),
            final(self).os_device() == old(self).os_device(),
            (interface as int) >= old(self).interface_count() ==> r == Err::<(), Error>(
                Error::InvalidArgument,
            ),
            old(self).is_consistent() && (interface as int) < old(self).interface_count()
                && !old(self).is_claimed(interface as int) ==> r == Ok::<(), Error>(()) && *final(
                self) == *old(self),
            old(self).is_consistent() && (interface as int) < old(self).interface_count() ==> (r is Ok
                <==> !final(self).is_claimed(interface as int)),
            r is Err ==> r->Err_0 == Error::InvalidArgument || exists|rc: i32|
                rc != IO_RETURN_SUCCESS && r->Err_0 == error_for_io_return(rc),
            old(self).is_consistent() ==> forall|i: int|
                0 <= i < old(self).interface_count() && i != interface ==> (final(self).is_claimed(i)
                    == old(self).is_claimed(i)),
            forall|i: int|
                0 <= i < old(self).interface_count() ==> final(self).is_placeholder(i) == old(self).is_placeholder(i),
    {
        if interface as usize >= self.interfaces.len() {
            return Err(Error::InvalidArgument);
        }
        let index = interface as usize;
        if index >= self.claimed.len() {
            return Err(Error::InvalidArgument);
        }
        if !self.claimed[index] {
            return Ok(());
        }
        let rc = match &self.interfaces[index] {
            None => IO_RETURN_SUCCESS,
            Some(object) => iokit.close_interface(object),
        };
        let outcome = from_io_return(rc);
        if outcome.is_ok() {
            self.claimed.set(index, false);
        }
        outcome
    }
}

} // verus!
