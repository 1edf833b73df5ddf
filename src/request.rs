//! Tools for working with USB device requests.
//!
//! The request-type byte of a control request carries the direction in bit 7,
//! the request type in bits 6..5 and the recipient in bits 4..0.

use vstd::prelude::*;

verus! {

/// Specifies the direction of a request.
#[derive(Copy, Debug, Clone, PartialEq, Eq, Structural)]
pub enum Direction {
    Out,
    In,
}

impl Direction {
    /// Helper that disambiguates the USB "out" direction.
    pub const HOST_TO_DEVICE: Self = Direction::Out;

    /// Helper that disambiguates the USB "in" direction.
    pub const DEVICE_TO_HOST: Self = Direction::In;
}

/// Specifies the type of a request.
#[derive(Copy, Debug, Clone, PartialEq, Eq, Structural)]
pub enum Type {
    Standard,
    Class,
    Vendor,
}

/// Specifies the "context"/recipient of a request.
#[derive(Copy, Debug, Clone, PartialEq, Eq, Structural)]
pub enum Recipient {
    Device,
    Interface,
    Endpoint,
    Other,
}

/// Helper for working with USB request-type fields.
#[derive(Copy, Debug, Clone, PartialEq, Eq, Structural)]
pub struct RequestType {
    /// Whether the given request is to the device (OUT) or to the host (IN).
    pub direction: Direction,
    /// The USB "request type" associated with this request.
    pub request_type: Type,
    /// The context/recipient to which this request will be delivered.
    pub recipient: Recipient,
}

/// The wire value of a direction: 0 for OUT, 1 for IN.
pub open spec fn direction_code(d: Direction) -> nat {
    match d {
        Direction::Out => 0,
        Direction::In => 1,
    }
}

/// The wire value of a request type.
pub open spec fn type_code(t: Type) -> nat {
    match t {
        Type::Standard => 0,
        Type::Class => 1,
        Type::Vendor => 2,
    }
}

/// The wire value of a recipient.
pub open spec fn recipient_code(r: Recipient) -> nat {
    match r {
        Recipient::Device => 0,
        Recipient::Interface => 1,
        Recipient::Endpoint => 2,
        Recipient::Other => 3,
    }
}

/// The request-type byte: direction in bit 7, type in bits 6..5, recipient in bits 4..0.
pub open spec fn request_type_byte(rt: RequestType) -> nat {
    128 * direction_code(rt.direction) + 32 * type_code(rt.request_type) + recipient_code(
        rt.recipient,
    )
}

impl RequestType {
    /// Encodes this request type as the bmRequestType byte of a setup packet.
    pub fn to_byte(&self) -> (r: u8)
        ensures
            r as nat == request_type_byte(*self),
    {
        let direction: u8 = match self.direction {
            Direction::Out => 0,
            Direction::In => 1,
        };
        let request_type: u8 = match self.request_type {
            Type::Standard => 0,
            Type::Class => 1,
            Type::Vendor => 2,
        };
        let recipient: u8 = match self.recipient {
            Recipient::Device => 0,
            Recipient::Interface => 1,
            Recipient::Endpoint => 2,
            Recipient::Other => 3,
        };
        direction * 128 + request_type * 32 + recipient
    }
}

/// The encoded byte holds each field in its own bits, so each field can be read back.
pub proof fn lemma_request_type_fields(rt: RequestType)
    ensures
        request_type_byte(rt) < 256,
        request_type_byte(rt) / 128 == direction_code(rt.direction),
        (request_type_byte(rt) / 32) % 4 == type_code(rt.request_type),
        request_type_byte(rt) % 32 == recipient_code(rt.recipient),
{
}

impl From<&RequestType> for u8 {
    fn from(encoded: &RequestType) -> u8 {
        encoded.to_byte()
    }
}

impl vstd::std_specs::convert::FromSpecImpl<&RequestType> for u8 {
    open spec fn obeys_from_spec() -> bool {
        true
    }

    open spec fn from_spec(encoded: &RequestType) -> u8 {
        request_type_byte(*encoded) as u8
    }
}

impl From<RequestType> for u8 {
    fn from(encoded: RequestType) -> u8 {
        encoded.to_byte()
    }
}

impl vstd::std_specs::convert::FromSpecImpl<RequestType> for u8 {
    open spec fn obeys_from_spec() -> bool {
        true
    }

    open spec fn from_spec(encoded: RequestType) -> u8 {
        request_type_byte(encoded) as u8
    }
}

/// Shorthand for the common case of performing a standard read of e.g. a device descriptor.
pub fn standard_in_from_device() -> (r: RequestType)
    ensures
        r == (RequestType { direction: Direction::In, request_type: Type::Standard, recipient: Recipient::Device }),
{
    RequestType { direction: Direction::In, request_type: Type::Standard, recipient: Recipient::Device }
}

/// Shorthand for the common case of issuing a standard request; e.g. set_interface.
pub fn standard_out_to_device() -> (r: RequestType)
    ensures
        r == (RequestType { direction: Direction::Out, request_type: Type::Standard, recipient: Recipient::Device }),
{
    RequestType { direction: Direction::Out, request_type: Type::Standard, recipient: Recipient::Device }
}

/// Shorthand for the most common way of receiving vendor-specific data from the device.
pub fn vendor_in_from_device() -> (r: RequestType)
    ensures
        r == (RequestType { direction: Direction::In, request_type: Type::Vendor, recipient: Recipient::Device }),
{
    RequestType { direction: Direction::In, request_type: Type::Vendor, recipient: Recipient::Device }
}

/// Shorthand for the most common way of sending vendor-specific data to the device.
pub fn vendor_out_to_device() -> (r: RequestType)
    ensures
        r == (RequestType { direction: Direction::Out, request_type: Type::Vendor, recipient: Recipient::Device }),
{
    RequestType { direction: Direction::Out, request_type: Type::Vendor, recipient: Recipient::Device }
}

/// Shorthand for sending class-specific data to an interface.
/// The interface number goes in the request's index.
pub fn class_out_to_interface() -> (r: RequestType)
    ensures
        r == (RequestType { direction: Direction::Out, request_type: Type::Class, recipient: Recipient::Interface }),
{
    RequestType { direction: Direction::Out, request_type: Type::Class, recipient: Recipient::Interface }
}

/// Shorthand for receiving class-specific data from an interface.
/// The interface number goes in the request's index.
pub fn class_in_from_interface() -> (r: RequestType)
    ensures
        r == (RequestType { direction: Direction::In, request_type: Type::Class, recipient: Recipient::Interface }),
{
    RequestType { direction: Direction::In, request_type: Type::Class, recipient: Recipient::Interface }
}

/// The standard device requests of USB 2.0 chapter 9.
#[derive(Copy, Debug, Clone, PartialEq, Eq, Structural)]
pub enum StandardDeviceRequest {
    GetStatus,
    ClearFeature,
    SetFeature,
    SetAddress,
    GetDescriptor,
    SetDescriptor,
    GetConfiguration,
    SetConfiguration,
}

/// The request number (bRequest) of a standard device request.
pub open spec fn standard_request_code(request: StandardDeviceRequest) -> u8 {
    match request {
        StandardDeviceRequest::GetStatus => 0,
        StandardDeviceRequest::ClearFeature => 1,
        StandardDeviceRequest::SetFeature => 3,
        StandardDeviceRequest::SetAddress => 5,
        StandardDeviceRequest::GetDescriptor => 6,
        StandardDeviceRequest::SetDescriptor => 7,
        StandardDeviceRequest::GetConfiguration => 8,
        StandardDeviceRequest::SetConfiguration => 9,
    }
}

impl StandardDeviceRequest {
    /// The request number (bRequest) of this request.
    pub fn code(&self) -> (r: u8)
        ensures
            r == standard_request_code(*self),
    {
        match self {
            StandardDeviceRequest::GetStatus => 0,
            StandardDeviceRequest::ClearFeature => 1,
            StandardDeviceRequest::SetFeature => 3,
            StandardDeviceRequest::SetAddress => 5,
            StandardDeviceRequest::GetDescriptor => 6,
            StandardDeviceRequest::SetDescriptor => 7,
            StandardDeviceRequest::GetConfiguration => 8,
            StandardDeviceRequest::SetConfiguration => 9,
        }
    }
}

impl From<&StandardDeviceRequest> for u8 {
    fn from(request: &StandardDeviceRequest) -> u8 {
        request.code()
    }
}

impl vstd::std_specs::convert::FromSpecImpl<&StandardDeviceRequest> for u8 {
    open spec fn obeys_from_spec() -> bool {
        true
    }

    open spec fn from_spec(request: &StandardDeviceRequest) -> u8 {
        standard_request_code(*request)
    }
}

impl From<StandardDeviceRequest> for u8 {
    fn from(request: StandardDeviceRequest) -> u8 {
        request.code()
    }
}

impl vstd::std_specs::convert::FromSpecImpl<StandardDeviceRequest> for u8 {
    open spec fn obeys_from_spec() -> bool {
        true
    }

    open spec fn from_spec(request: StandardDeviceRequest) -> u8 {
        standard_request_code(request)
    }
}

/// The standard descriptor types.
#[derive(Copy, Debug, Clone, PartialEq, Eq, Structural)]
pub enum DescriptorType {
    Device,
    Configuration,
    String,
    Interface,
    Endpoint,
}

/// The bDescriptorType value of a standard descriptor.
pub open spec fn descriptor_type_code(descriptor: DescriptorType) -> u8 {
    match descriptor {
        DescriptorType::Device => 1,
        DescriptorType::Configuration => 2,
        DescriptorType::String => 3,
        DescriptorType::Interface => 4,
        DescriptorType::Endpoint => 5,
    }
}

impl DescriptorType {
    /// The bDescriptorType value of this descriptor type.
    pub fn code(&self) -> (r: u8)
        ensures
            r == descriptor_type_code(*self),
    {
        match self {
            DescriptorType::Device => 1,
            DescriptorType::Configuration => 2,
            DescriptorType::String => 3,
            DescriptorType::Interface => 4,
            DescriptorType::Endpoint => 5,
        }
    }
}

impl From<&DescriptorType> for u8 {
    fn from(descriptor: &DescriptorType) -> u8 {
        descriptor.code()
    }
}

impl vstd::std_specs::convert::FromSpecImpl<&DescriptorType> for u8 {
    open spec fn obeys_from_spec() -> bool {
        true
    }

    open spec fn from_spec(descriptor: &DescriptorType) -> u8 {
        descriptor_type_code(*descriptor)
    }
}

impl From<DescriptorType> for u8 {
    fn from(descriptor: DescriptorType) -> u8 {
        descriptor.code()
    }
}

impl vstd::std_specs::convert::FromSpecImpl<DescriptorType> for u8 {
    open spec fn obeys_from_spec() -> bool {
        true
    }

    open spec fn from_spec(descriptor: DescriptorType) -> u8 {
        descriptor_type_code(descriptor)
    }
}

} // verus!
