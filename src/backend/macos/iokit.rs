//! The IOKit services the macOS backend is built on.
//!
//! The backend's logic is written against this trait and takes every IOKit outcome
//! as it comes; an implementation performs the raw calls (device plug-ins, pipe
//! transfers, run-loop sources) and reports their return codes unchanged.

use vstd::prelude::*;

use crate::backend::{ReadBuffer, WriteBuffer};
use crate::error::UsbResult;

verus! {

/// The setup stage of a control request, as handed to IOKit.
#[derive(Debug, Clone, Copy, PartialEq, Eq, Structural)]
pub struct ControlSetup {
    /// bmRequestType.
    pub request_type: u8,
    /// bRequest.
    pub request: u8,
    /// wValue.
    pub value: u16,
    /// wIndex.
    pub index: u16,
    /// wLength: the length of the data stage.
    pub length: u16,
}

/// The header of a configuration descriptor, as IOKit lays it out.
#[derive(Debug, Clone, Copy, PartialEq, Eq, Structural)]
pub struct IOUSBConfigurationDescriptor {
    /// bLength.
    pub b_length: u8,
    /// bDescriptorType.
    pub b_descriptor_type: u8,
    /// wTotalLength.
    pub w_total_length: u16,
    /// bNumInterfaces.
    pub b_num_interfaces: u8,
    /// bConfigurationValue.
    pub b_configuration_value: u8,
    /// iConfiguration.
    pub i_configuration: u8,
    /// bmAttributes.
    pub bm_attributes: u8,
    /// MaxPower.
    pub max_power: u8,
}

/// Raw IOKit operations. Each returns IOKit's return code, or the value it produced.
pub trait IoKit {
    /// A registry entry: a device or interface service.
    type Service;
    /// A device object obtained from a device service.
    type Device;
    /// An interface object obtained from an interface service.
    type Interface;
    /// An asynchronous notification source, to be run by an event loop.
    type EventSource;

    /// Lists the USB device services. `Ok(None)` when IOKit produced no iterator.
    fn device_services(&self) -> Result<Option<Vec<Self::Service>>, i32>;

    /// Reads a numeric registry property of a service; `None` when it is absent or unreadable.
    fn numeric_property(&self, service: &Self::Service, property: &str) -> Option<u64>;

    /// Reads a string registry property of a service; `None` when it is absent or unreadable.
    fn string_property(&self, service: &Self::Service, property: &str) -> Option<String>;

    /// Creates the device object of a device service; `Ok(None)` when IOKit reported
    /// success but produced no plug-in.
    fn create_device(&self, service: &Self::Service) -> Result<Option<Self::Device>, i32>;

    /// Waits briefly before retrying an operation that reported a transient shortage.
    fn pause(&self);

    /// Opens a device object for use.
    fn open_device(&self, device: &Self::Device) -> i32;

    /// Lists the interface services of a device.
    fn interface_services(&self, device: &Self::Device) -> Result<Vec<Self::Service>, i32>;

    /// Creates the interface object of an interface service; `Ok(None)` when IOKit
    /// reported success but produced no plug-in.
    fn create_interface(&self, service: &Self::Service) -> Result<Option<Self::Interface>, i32>;

    /// Opens an interface object, claiming it.
    fn open_interface(&self, interface: &Self::Interface) -> i32;

    /// Closes an interface object, releasing the claim.
    fn close_interface(&self, interface: &Self::Interface) -> i32;

    /// Returns the number of endpoints of an interface.
    fn endpoint_count(&self, interface: &Self::Interface) -> Result<u8, i32>;

    /// Returns the direction (0 for OUT) and number of the endpoint behind a pipe reference.
    fn endpoint_properties(&self, interface: &Self::Interface, pipe_ref: u8) -> Result<
        (u8, u8),
        i32,
    >;

    /// Creates the notification source of a device's asynchronous events.
    fn device_event_source(&self, device: &Self::Device) -> Result<Self::EventSource, i32>;

    /// Creates the notification source of an interface's asynchronous events.
    fn interface_event_source(&self, interface: &Self::Interface) -> Result<
        Self::EventSource,
        i32,
    >;

    /// Starts the device's event loop on the given sources. The loop ends once the device
    /// object is dropped.
    fn start_event_loop(&self, device: &Self::Device, sources: Vec<Self::EventSource>);

    /// Returns the active configuration.
    fn get_configuration(&self, device: &Self::Device) -> Result<u8, i32>;

    /// Selects the active configuration.
    fn set_configuration(&self, device: &Self::Device, configuration: u8) -> i32;

    /// Bus-resets the device.
    fn reset_device(&self, device: &Self::Device) -> i32;

    /// Performs a control request whose data stage reads into `data`; returns the length done.
    fn device_request_in(
        &self,
        device: &Self::Device,
        setup: ControlSetup,
        data: &mut [u8],
        timeout_ms: Option<u32>,
    ) -> Result<u32, i32>;

    /// Performs a control request whose data stage sends `data`; returns the length done.
    fn device_request_out(
        &self,
        device: &Self::Device,
        setup: ControlSetup,
        data: &[u8],
        timeout_ms: Option<u32>,
    ) -> Result<u32, i32>;

    /// Submits a control request reading into `data`; `callback` receives the outcome.
    fn device_request_in_async<F: FnOnce(UsbResult<usize>) + Send + 'static>(
        &self,
        device: &Self::Device,
        setup: ControlSetup,
        data: ReadBuffer,
        callback: F,
        timeout_ms: Option<u32>,
    ) -> i32;

    /// Submits a control request sending `data`; `callback` receives the outcome.
    fn device_request_out_async<F: FnOnce(UsbResult<usize>) + Send + 'static>(
        &self,
        device: &Self::Device,
        setup: ControlSetup,
        data: WriteBuffer,
        callback: F,
        timeout_ms: Option<u32>,
    ) -> i32;

    /// Reads from a pipe into `buffer`; returns the length read.
    fn read_pipe(
        &self,
        interface: &Self::Interface,
        pipe_ref: u8,
        buffer: &mut [u8],
        timeout_ms: Option<u32>,
    ) -> Result<u32, i32>;

    /// Writes `data` to a pipe.
    fn write_pipe(
        &self,
        interface: &Self::Interface,
        pipe_ref: u8,
        data: &[u8],
        timeout_ms: Option<u32>,
    ) -> i32;

    /// Submits a read from a pipe into `buffer`; `callback` receives the outcome.
    fn read_pipe_async<F: FnOnce(UsbResult<usize>) + Send + 'static>(
        &self,
        interface: &Self::Interface,
        pipe_ref: u8,
        buffer: ReadBuffer,
        callback: F,
        timeout_ms: Option<u32>,
    ) -> i32;

    /// Submits a write of `data` to a pipe; `callback` receives the outcome.
    fn write_pipe_async<F: FnOnce(UsbResult<usize>) + Send + 'static>(
        &self,
        interface: &Self::Interface,
        pipe_ref: u8,
        data: WriteBuffer,
        callback: F,
        timeout_ms: Option<u32>,
    ) -> i32;

    /// Clears the stall condition of a pipe.
    fn clear_pipe_stall(&self, interface: &Self::Interface, pipe_ref: u8) -> i32;

    /// Selects an alternate setting of an interface.
    fn set_alternate_interface(&self, interface: &Self::Interface, setting: u8) -> i32;
}

} // verus!
