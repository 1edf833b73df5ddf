//! Abstraction over the host's USB functionality.

use std::rc::Rc;

use vstd::prelude::*;

use crate::backend::macos::iokit::IoKit;
use crate::backend::macos::MacOsBackend;
use crate::backend::{create_default_backend, Backend};
use crate::device::{Device, DeviceInformation, DeviceSelector};
use crate::error::{Error, UsbResult};

verus! {

/// The devices of `devices` that `selector` accepts, in their order.
pub open spec fn matching_devices(
    selector: DeviceSelector,
    devices: Seq<DeviceInformation>,
) -> Seq<DeviceInformation>
    decreases devices.len(),
{
    if devices.len() == 0 {
        Seq::empty()
    } else {
        let rest = matching_devices(selector, devices.drop_first());
        if selector.accepts(devices[0]) {
            seq![devices[0]] + rest
        } else {
            rest
        }
    }
}

/// Every device in the matching sequence is one the selector accepts.
pub proof fn lemma_matching_devices_accepted(
    selector: DeviceSelector,
    devices: Seq<DeviceInformation>,
)
    ensures
        forall|i: int|
            0 <= i < matching_devices(selector, devices).len() ==> selector.accepts(
                #[trigger] matching_devices(selector, devices)[i],
            ),
        matching_devices(selector, devices).len() <= devices.len(),
    decreases devices.len(),
{
    if devices.len() > 0 {
        lemma_matching_devices_accepted(selector, devices.drop_first());
    }
}

/// An unconstrained selector keeps every device, in order.
pub proof fn lemma_unconstrained_keeps_all(selector: DeviceSelector, devices: Seq<DeviceInformation>)
    requires
        selector.is_unconstrained(),
    ensures
        matching_devices(selector, devices) == devices,
    decreases devices.len(),
{
    if devices.len() > 0 {
        lemma_unconstrained_keeps_all(selector, devices.drop_first());
        assert(seq![devices[0]] + devices.drop_first() =~= devices);
    }
}

/// Filters enumerated devices by `selector`, keeping their order. With `single_device`,
/// only the first match is kept.
pub fn filter_devices(
    devices: Vec<DeviceInformation>,
    selector: &DeviceSelector,
    single_device: bool,
) -> (r: Vec<DeviceInformation>)
    ensures
        !single_device ==> r@ == matching_devices(*selector, devices@),
        single_device && matching_devices(*selector, devices@).len() > 0 ==> r@ == seq![
            matching_devices(*selector, devices@)[0],
        ],
        single_device && matching_devices(*selector, devices@).len() == 0 ==> r@.len() == 0,
{
    let ghost all = devices@;
    let mut remaining = devices;
    let mut matching: Vec<DeviceInformation> = Vec::new();
    while remaining.len() > 0
        invariant
            all == devices@,
            matching_devices(*selector, all) == matching@ + matching_devices(
                *selector,
                remaining@,
            ),
            single_device ==> matching@.len() == 0,
        decreases remaining.len(),
    {
        let ghost before = remaining@;
        let device = remaining.remove(0);
        assert(remaining@ == before.drop_first());
        if selector.matches(&device) {
            let ghost old_matching = matching@;
            matching.push(device);
            assert(matching_devices(*selector, all) == matching@ + matching_devices(
                *selector,
                remaining@,
            )) by {
                assert(old_matching + (seq![device] + matching_devices(*selector, remaining@))
                    =~= old_matching.push(device) + matching_devices(*selector, remaining@));
            }
            if single_device {
                assert(matching_devices(*selector, all)[0] == device);
                assert(matching@ =~= seq![device]);
                return matching;
            }
        }
    }
    assert(matching@ + matching_devices(*selector, remaining@) =~= matching@);
    matching
}

/// Takes the first device of a filtered list, or reports that none matched.
pub fn first_device(candidates: Vec<DeviceInformation>) -> (r: UsbResult<DeviceInformation>)
    ensures
        candidates@.len() == 0 ==> r == Err::<DeviceInformation, Error>(Error::DeviceNotFound),
        candidates@.len() > 0 ==> r == Ok::<DeviceInformation, Error>(candidates@[0]),
{
    let mut candidates = candidates;
    if candidates.len() == 0 {
        Err(Error::DeviceNotFound)
    } else {
        Ok(candidates.swap_remove(0))
    }
}

/// A USB host: the thing (e.g. the OS) that talks to USB devices, through a backend.
pub struct Host<B: Backend> {
    /// The backend providing this host's operations.
    backend: Rc<B>,
}

impl<B: Backend> Host<B> {
    /// The backend of this host.
    pub closed spec fn backend(&self) -> Rc<B> {
        self.backend
    }

    /// Creates a host from a backend, which decides the platform the host talks to.
    pub fn new_from_backend(backend: Rc<B>) -> (r: UsbResult<Self>)
        ensures
            r is Ok,
            r->Ok_0.backend() == backend,
    {
        Ok(Host { backend })
    }

    /// Enumerates the devices that `selector` accepts; with `single_device`, at most one.
    fn enumerate_devices(&mut self, selector: &DeviceSelector, single_device: bool) -> (r:
        UsbResult<Vec<DeviceInformation>>)
        ensures
            r is Ok ==> (forall|i: int|
                0 <= i < r->Ok_0@.len() ==> selector.accepts(#[trigger] r->Ok_0@[i])),
            r is Ok && single_device ==> r->Ok_0@.len() <= 1,
    {
        let all_devices = self.backend.get_devices()?;
        let ghost all = all_devices@;
        let r = filter_devices(all_devices, selector, single_device);
        proof {
            lemma_matching_devices_accepted(*selector, all);
        }
        Ok(r)
    }

    /// Returns the first enumerated device that `selector` accepts.
    pub fn device(&mut self, selector: &DeviceSelector) -> (r: UsbResult<DeviceInformation>)
        ensures
            r is Ok ==> selector.accepts(r->Ok_0),
    {
        let candidates = self.enumerate_devices(selector, true)?;
        first_device(candidates)
    }

    /// Returns every enumerated device that `selector` accepts.
    pub fn devices(&mut self, selector: &DeviceSelector) -> (r: UsbResult<Vec<DeviceInformation>>)
        ensures
            r is Ok ==> (forall|i: int|
                0 <= i < r->Ok_0@.len() ==> selector.accepts(#[trigger] r->Ok_0@[i])),
    {
        self.enumerate_devices(selector, false)
    }

    /// Returns every device currently connected to the system.
    pub fn all_devices(&mut self) -> UsbResult<Vec<DeviceInformation>> {
        self.devices(&DeviceSelector::any())
    }

    /// Opens a device given its enumeration information.
    pub fn open(&mut self, information: &DeviceInformation) -> (r: UsbResult<Device<B>>)
        ensures
            r is Ok ==> r->Ok_0.backend() == old(self).backend(),
            (*old(self).backend()).refuses_open(*information) ==> r is Err && r->Err_0
                == Error::DeviceNotFound,
            final(self).backend() == old(self).backend(),
    {
        let backend_device = self.backend.open(information)?;
        Ok(Device::from_backend_device(backend_device, self.backend.clone()))
    }
}

impl<K: IoKit> Host<MacOsBackend<K>> {
    /// Creates a host over the default backend, built on the given IOKit services.
    pub fn new(iokit: K) -> (r: UsbResult<Self>)
        ensures
            r is Ok,
    {
        let backend = create_default_backend(iokit)?;
        Self::new_from_backend(backend)
    }
}

/// Returns the first device that `selector` accepts, through a host that lives for this
/// call only.
pub fn device<K: IoKit>(iokit: K, selector: &DeviceSelector) -> (r: UsbResult<DeviceInformation>)
    ensures
        r is Ok ==> selector.accepts(r->Ok_0),
{
    Host::new(iokit)?.device(selector)
}

/// Returns every device that `selector` accepts, through a host that lives for this call only.
pub fn devices<K: IoKit>(iokit: K, selector: &DeviceSelector) -> (r: UsbResult<
    Vec<DeviceInformation>,
>)
    ensures
        r is Ok ==> (forall|i: int|
            0 <= i < r->Ok_0@.len() ==> selector.accepts(#[trigger] r->Ok_0@[i])),
{
    Host::new(iokit)?.devices(selector)
}

/// Returns every device currently connected, through a host that lives for this call only.
pub fn all_devices<K: IoKit>(iokit: K) -> UsbResult<Vec<DeviceInformation>> {
    Host::new(iokit)?.all_devices()
}

/// Opens a device given its enumeration information, through a host that lives for this
/// call only.
pub fn open<K: IoKit>(iokit: K, information: &DeviceInformation) -> (r: UsbResult<
    Device<MacOsBackend<K>>,
>) {
    Host::new(iokit)?.open(information)
}

} // verus!
