use usrs::backend::macos::endpoint::{
    address_for_in_endpoint, address_for_out_endpoint, endpoint_address_is_in,
    number_for_endpoint_address,
};
use usrs::backend::macos::status::{
    completion_result, from_io_return, from_io_return_and_value, io_return_to_error,
    saturate_timeout_millis, to_iokit_timeout, IO_RETURN_ABORTED, IO_RETURN_BAD_ARGUMENT,
    IO_RETURN_EXCLUSIVE_ACCESS, IO_RETURN_NOT_OPEN, IO_RETURN_NO_DEVICE, IO_RETURN_NO_RESOURCES,
    IO_RETURN_OVERRUN, IO_RETURN_SUCCESS, IO_USB_NO_ASYNC_PORT, IO_USB_PIPE_STALLED,
    IO_USB_TRANSACTION_TIMEOUT, IO_USB_UNKNOWN_PIPE,
};
use usrs::device::{descriptor_request_value, unsupported_as_success};
use usrs::request::{
    class_in_from_interface, class_out_to_interface, standard_in_from_device,
    standard_out_to_device, vendor_in_from_device, vendor_out_to_device, DescriptorType,
    Direction, Recipient, RequestType, StandardDeviceRequest, Type,
};
use usrs::Error;

#[test]
fn request_type_bytes_follow_the_bit_layout() {
    assert_eq!(u8::from(standard_in_from_device()), 0x80);
    assert_eq!(u8::from(standard_out_to_device()), 0x00);
    assert_eq!(u8::from(vendor_in_from_device()), 0xC0);
    assert_eq!(u8::from(vendor_out_to_device()), 0x40);
    assert_eq!(u8::from(class_out_to_interface()), 0x21);
    assert_eq!(u8::from(class_in_from_interface()), 0xA1);
    let other = RequestType {
        direction: Direction::DEVICE_TO_HOST,
        request_type: Type::Class,
        recipient: Recipient::Other,
    };
    assert_eq!(u8::from(&other), 0xA3);
    assert_eq!(other.to_byte(), 0xA3);
    let endpoint = RequestType {
        direction: Direction::HOST_TO_DEVICE,
        request_type: Type::Standard,
        recipient: Recipient::Endpoint,
    };
    assert_eq!(u8::from(endpoint), 0x02);
}

#[test]
fn standard_requests_and_descriptor_types_have_their_codes() {
    assert_eq!(u8::from(StandardDeviceRequest::GetStatus), 0);
    assert_eq!(u8::from(StandardDeviceRequest::ClearFeature), 1);
    assert_eq!(u8::from(StandardDeviceRequest::SetFeature), 3);
    assert_eq!(u8::from(StandardDeviceRequest::SetAddress), 5);
    assert_eq!(u8::from(&StandardDeviceRequest::GetDescriptor), 6);
    assert_eq!(u8::from(StandardDeviceRequest::SetDescriptor), 7);
    assert_eq!(u8::from(StandardDeviceRequest::GetConfiguration), 8);
    assert_eq!(u8::from(StandardDeviceRequest::SetConfiguration), 9);
    assert_eq!(u8::from(DescriptorType::Device), 1);
    assert_eq!(u8::from(DescriptorType::Configuration), 2);
    assert_eq!(u8::from(DescriptorType::String), 3);
    assert_eq!(u8::from(&DescriptorType::Interface), 4);
    assert_eq!(u8::from(DescriptorType::Endpoint), 5);
}

#[test]
fn descriptor_value_puts_type_in_high_byte() {
    assert_eq!(descriptor_request_value(1, 0), 0x0100);
    assert_eq!(descriptor_request_value(2, 3), 0x0203);
    assert_eq!(descriptor_request_value(0xff, 0xff), 0xffff);
}

#[test]
fn endpoint_addresses_carry_direction_in_the_high_bit() {
    assert_eq!(address_for_out_endpoint(2), 2);
    assert_eq!(address_for_in_endpoint(1), 0x81);
    assert_eq!(address_for_in_endpoint(0x81), 0x81);
    assert_eq!(number_for_endpoint_address(0x83), 3);
    assert_eq!(number_for_endpoint_address(0x03), 3);
    assert!(endpoint_address_is_in(0x81));
    assert!(!endpoint_address_is_in(0x01));
}

#[test]
fn io_returns_translate_to_the_taxonomy() {
    assert_eq!(io_return_to_error(IO_RETURN_NOT_OPEN), Error::DeviceNotOpen);
    assert_eq!(io_return_to_error(IO_RETURN_NO_DEVICE), Error::DeviceNotFound);
    assert_eq!(io_return_to_error(IO_RETURN_EXCLUSIVE_ACCESS), Error::DeviceReserved);
    assert_eq!(io_return_to_error(IO_RETURN_BAD_ARGUMENT), Error::InvalidArgument);
    assert_eq!(io_return_to_error(IO_RETURN_ABORTED), Error::Aborted);
    assert_eq!(io_return_to_error(IO_RETURN_OVERRUN), Error::Overrun);
    assert_eq!(io_return_to_error(IO_RETURN_NO_RESOURCES), Error::PermissionDenied);
    assert_eq!(io_return_to_error(IO_USB_NO_ASYNC_PORT), Error::DeviceNotOpen);
    assert_eq!(io_return_to_error(IO_USB_UNKNOWN_PIPE), Error::InvalidEndpoint);
    assert_eq!(io_return_to_error(IO_USB_PIPE_STALLED), Error::Stalled);
    assert_eq!(io_return_to_error(IO_USB_TRANSACTION_TIMEOUT), Error::TimedOut);
    assert_eq!(io_return_to_error(-536870212), Error::OsError(-536870212));
    assert_eq!(IO_RETURN_NOT_OPEN as u32, 0xe00002cd);
    assert_eq!(IO_USB_PIPE_STALLED as u32, 0xe000404f);
}

#[test]
fn io_return_results() {
    assert_eq!(from_io_return(IO_RETURN_SUCCESS), Ok(()));
    assert_eq!(from_io_return(IO_RETURN_ABORTED), Err(Error::Aborted));
    assert_eq!(from_io_return_and_value(IO_RETURN_SUCCESS, 7u8), Ok(7));
    assert_eq!(completion_result(IO_RETURN_SUCCESS, 18), Ok(18));
    assert_eq!(completion_result(IO_USB_PIPE_STALLED, 18), Err(Error::Stalled));
}

#[test]
fn timeouts_saturate_at_the_iokit_limit() {
    assert_eq!(saturate_timeout_millis(1500), 1500);
    assert_eq!(saturate_timeout_millis(u32::MAX as u128), u32::MAX);
    assert_eq!(saturate_timeout_millis(u32::MAX as u128 + 1), u32::MAX);
    assert_eq!(to_iokit_timeout(&std::time::Duration::from_millis(250)), 250);
    assert_eq!(to_iokit_timeout(&std::time::Duration::from_secs(5_000_000)), u32::MAX);
}

#[test]
fn unsupported_becomes_success() {
    assert_eq!(unsupported_as_success(Err(Error::Unsupported)), Ok(()));
    assert_eq!(unsupported_as_success(Err(Error::Stalled)), Err(Error::Stalled));
    assert_eq!(unsupported_as_success(Ok(())), Ok(()));
}
