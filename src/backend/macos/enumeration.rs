//! Enumeration of USB devices through the IORegistry, and locating a device again.

use vstd::prelude::*;

use crate::backend::macos::iokit::IoKit;
use crate::device::DeviceInformation;
use crate::error::{Error, UsbResult};

verus! {

/// A numeric registry property as a 16-bit value: absent or out-of-range values are
/// unexplained OS failures.
pub open spec fn u16_property(value: Option<u64>) -> UsbResult<u16> {
    if value is Some && value->0 <= u16::MAX {
        Ok(value->0 as u16)
    } else {
        Err(Error::UnspecifiedOsError)
    }
}

/// Whether a location property identifies a device: present, and a 32-bit location ID.
pub open spec fn is_location(value: Option<u64>) -> bool {
    value is Some && value->0 <= u32::MAX
}

/// The device information that enumeration builds from a device's registry properties.
/// A device without a location ID is not real to the OS: it cannot be opened.
pub open spec fn information_from_properties(
    vendor_id: Option<u64>,
    product_id: Option<u64>,
    serial: Option<String>,
    vendor: Option<String>,
    product: Option<String>,
    location: Option<u64>,
) -> UsbResult<DeviceInformation> {
    if u16_property(vendor_id) is Err {
        Err(Error::UnspecifiedOsError)
    } else if u16_property(product_id) is Err {
        Err(Error::UnspecifiedOsError)
    } else if !is_location(location) {
        Err(Error::DeviceNotReal)
    } else {
        Ok(
            DeviceInformation {
                vendor_id: u16_property(vendor_id)->Ok_0,
                product_id: u16_property(product_id)->Ok_0,
                serial,
                vendor,
                product,
                backend_numeric_location: location,
                backend_string_location: None,
            },
        )
    }
}

/// Reads a numeric registry property as a 16-bit value.
pub fn property_as_u16(value: Option<u64>) -> (r: UsbResult<u16>)
    ensures
        r == u16_property(value),
{
    match value {
        Some(v) => {
            if v <= u16::MAX as u64 {
                Ok(v as u16)
            } else {
                Err(Error::UnspecifiedOsError)
            }
        },
        None => Err(Error::UnspecifiedOsError),
    }
}

/// Builds device information from a device's registry properties.
pub fn device_information_from_properties(
    vendor_id: Option<u64>,
    product_id: Option<u64>,
    serial: Option<String>,
    vendor: Option<String>,
    product: Option<String>,
    location: Option<u64>,
) -> (r: UsbResult<DeviceInformation>)
    ensures
        r == information_from_properties(vendor_id, product_id, serial, vendor, product, location),
{
    let vendor_id = property_as_u16(vendor_id)?;
    let product_id = property_as_u16(product_id)?;
    match location {
        Some(l) => {
            if l > u32::MAX as u64 {
                return Err(Error::DeviceNotReal);
            }
        },
        None => {
            return Err(Error::DeviceNotReal);
        },
    }
    Ok(
        DeviceInformation {
            vendor_id,
            product_id,
            serial,
            vendor,
            product,
            backend_numeric_location: location,
            backend_string_location: None,
        },
    )
}

/// Reads the device information of a device service from the IORegistry.
pub fn get_device_information<K: IoKit>(iokit: &K, service: &K::Service) -> (r: UsbResult<
    DeviceInformation,
>)
    ensures
        r is Ok ==> is_location(r->Ok_0.backend_numeric_location),
{
    let vendor_id = iokit.numeric_property(service, "idVendor");
    let product_id = iokit.numeric_property(service, "idProduct");
    let serial = iokit.string_property(service, "USB Serial Number");
    let vendor = iokit.string_property(service, "USB Vendor Name");
    let product = iokit.string_property(service, "USB Product Name");
    let location = iokit.numeric_property(service, "locationID");
    device_information_from_properties(vendor_id, product_id, serial, vendor, product, location)
}

/// What enumeration yields from the per-device outcomes, in OS order: the information of
/// every real device, skipping those that are not real; the first other failure ends it.
pub open spec fn real_devices(outcomes: Seq<UsbResult<DeviceInformation>>) -> UsbResult<
    Seq<DeviceInformation>,
>
    decreases outcomes.len(),
{
    if outcomes.len() == 0 {
        Ok(Seq::empty())
    } else {
        match outcomes[0] {
            Err(Error::DeviceNotReal) => real_devices(outcomes.drop_first()),
            Err(e) => Err(e),
            Ok(information) => match real_devices(outcomes.drop_first()) {
                Ok(rest) => Ok(seq![information] + rest),
                Err(e) => Err(e),
            },
        }
    }
}

/// `outcome` with `prefix` put in front of its devices.
pub open spec fn after_prefix(
    prefix: Seq<DeviceInformation>,
    outcome: UsbResult<Seq<DeviceInformation>>,
) -> UsbResult<Seq<DeviceInformation>> {
    match outcome {
        Ok(rest) => Ok(prefix + rest),
        Err(e) => Err(e),
    }
}

/// Collects the devices of the per-device outcomes of enumeration.
pub fn collect_real_devices(outcomes: Vec<UsbResult<DeviceInformation>>) -> (r: UsbResult<
    Vec<DeviceInformation>,
>)
    ensures
        r is Ok <==> real_devices(outcomes@) is Ok,
        r is Ok ==> r->Ok_0@ == real_devices(outcomes@)->Ok_0,
        r is Err ==> r->Err_0 == real_devices(outcomes@)->Err_0,
        (forall|i: int|
            0 <= i < outcomes@.len() && (#[trigger] outcomes@[i]) is Ok ==> is_location(
                outcomes@[i]->Ok_0.backend_numeric_location,
            )) ==> r is Ok ==> forall|j: int|
            0 <= j < r->Ok_0@.len() ==> is_location(#[trigger] r->Ok_0@[j].backend_numeric_location),
{
    let ghost located = forall|i: int|
        0 <= i < outcomes@.len() && (#[trigger] outcomes@[i]) is Ok ==> is_location(
            outcomes@[i]->Ok_0.backend_numeric_location,
        );
    let ghost all = outcomes@;
    let mut remaining = outcomes;
    let mut devices: Vec<DeviceInformation> = Vec::new();
    while remaining.len() > 0
        invariant
            all == outcomes@,
            located == (forall|i: int|
                0 <= i < all.len() && (#[trigger] all[i]) is Ok ==> is_location(
                    all[i]->Ok_0.backend_numeric_location,
                )),
            located ==> forall|i: int|
                0 <= i < remaining@.len() && (#[trigger] remaining@[i]) is Ok ==> is_location(
                    remaining@[i]->Ok_0.backend_numeric_location,
                ),
            located ==> forall|j: int|
                0 <= j < devices@.len() ==> is_location(
                    #[trigger] devices@[j].backend_numeric_location,
                ),
            real_devices(all) == after_prefix(devices@, real_devices(remaining@)),
        decreases remaining.len(),
    {
        let ghost before = remaining@;
        let outcome = remaining.remove(0);
        assert(remaining@ == before.drop_first());
        assert(located && outcome is Ok ==> is_location(outcome->Ok_0.backend_numeric_location)) by {
            if located && outcome is Ok {
                assert(before[0] == outcome);
            }
        }
        assert(located ==> forall|i: int|
            0 <= i < remaining@.len() && (#[trigger] remaining@[i]) is Ok ==> is_location(
                remaining@[i]->Ok_0.backend_numeric_location,
            )) by {
            if located {
                assert forall|i: int|
                    0 <= i < remaining@.len() && (#[trigger] remaining@[i]) is Ok implies is_location(
                        remaining@[i]->Ok_0.backend_numeric_location,
                    ) by {
                    assert(remaining@[i] == before[i + 1]);
                }
            }
        }
        match outcome {
            Err(Error::DeviceNotReal) => {},
            Err(e) => {
                assert(real_devices(before) == Err::<Seq<DeviceInformation>, Error>(e));
                return Err(e);
            },
            Ok(information) => {
                let ghost old_devices = devices@;
                devices.push(information);
                assert(real_devices(all) == after_prefix(devices@, real_devices(remaining@))) by {
                    match real_devices(remaining@) {
                        Ok(rest) => {
                            assert(old_devices + (seq![information] + rest) =~= devices@ + rest);
                        },
                        Err(e) => {},
                    }
                }
            },
        }
    }
    assert(devices@ + Seq::<DeviceInformation>::empty() =~= devices@);
    Ok(devices)
}

/// Gathers the device information of every device that is real to the OS. Devices
/// without a location ID are skipped; any other failure ends enumeration. No device
/// iterator means no devices.
pub fn enumerate_devices<K: IoKit>(iokit: &K) -> (r: UsbResult<Vec<DeviceInformation>>)
    ensures
        r is Ok ==> forall|i: int|
            0 <= i < r->Ok_0@.len() ==> is_location(#[trigger] r->Ok_0@[i].backend_numeric_location),
{
    let services = match iokit.device_services() {
        Err(rc) => {
            return Err(Error::OsError(rc as i64));
        },
        Ok(None) => {
            return Ok(Vec::new());
        },
        Ok(Some(services)) => services,
    };
    let mut outcomes: Vec<UsbResult<DeviceInformation>> = Vec::new();
    let mut i: usize = 0;
    while i < services.len()
        invariant
            0 <= i <= services@.len(),
            outcomes@.len() == i,
            forall|j: int|
                0 <= j < outcomes@.len() && (#[trigger] outcomes@[j]) is Ok ==> is_location(
                    outcomes@[j]->Ok_0.backend_numeric_location,
                ),
        decreases services@.len() - i,
    {
        outcomes.push(get_device_information(iokit, &services[i]));
        i = i + 1;
    }
    collect_real_devices(outcomes)
}

/// Whether a device's location property equals the locator being looked for.
pub open spec fn location_matches(location: Option<u64>, target: u64) -> bool {
    is_location(location) && location->0 == target
}

/// Finds the first device whose location equals the locator. Without a locator, or when no
/// device has that location, the device is not found.
pub fn locate_device(locations: &Vec<Option<u64>>, target: Option<u64>) -> (r: UsbResult<usize>)
    ensures
        target is None ==> r == Err::<usize, Error>(Error::DeviceNotFound),
        r is Ok ==> target is Some && r->Ok_0 < locations@.len() && location_matches(
            locations@[r->Ok_0 as int],
            target->0,
        ) && forall|j: int|
            0 <= j < r->Ok_0 ==> !location_matches(#[trigger] locations@[j], target->0),
        r is Err ==> r->Err_0 == Error::DeviceNotFound,
        r is Err && target is Some ==> forall|j: int|
            0 <= j < locations@.len() ==> !location_matches(#[trigger] locations@[j], target->0),
        target is Some && (forall|j: int|
            0 <= j < locations@.len() ==> !location_matches(#[trigger] locations@[j], target->0))
            ==> r == Err::<usize, Error>(Error::DeviceNotFound),
{
    let wanted = match target {
        Some(t) => t,
        None => {
            return Err(Error::DeviceNotFound);
        },
    };
    let mut i: usize = 0;
    while i < locations.len()
        invariant
            0 <= i <= locations@.len(),
            target == Some(wanted),
            forall|j: int| 0 <= j < i ==> !location_matches(#[trigger] locations@[j], wanted),
        decreases locations@.len() - i,
    {
        if let Some(location) = locations[i] {
            if location <= u32::MAX as u64 && location == wanted {
                return Ok(i);
            }
        }
        i = i + 1;
    }
    Err(Error::DeviceNotFound)
}

} // verus!
