use usrs::{DeviceInformation, DeviceSelector};

fn info(vendor_id: u16, product_id: u16, serial: Option<&str>) -> DeviceInformation {
    DeviceInformation::new(vendor_id, product_id, serial.map(String::from), None, None)
}

#[test]
fn empty_selector_matches_every_device() {
    let selector = DeviceSelector { vendor_id: None, product_id: None, serial: None };
    assert!(selector.matches(&info(0x1d50, 0x615c, Some("abc"))));
    assert!(selector.matches(&info(0, 0, None)));
    assert!(DeviceSelector::any().matches(&info(0xffff, 0xffff, None)));
}

#[test]
fn disagreeing_fields_reject_the_device() {
    let device = info(0x1d50, 0x615c, Some("abc"));
    let by_vendor = DeviceSelector { vendor_id: Some(0x1d51), product_id: None, serial: None };
    let by_product = DeviceSelector { vendor_id: Some(0x1d50), product_id: Some(0x615d), serial: None };
    let by_serial = DeviceSelector { vendor_id: None, product_id: None, serial: Some("abd".into()) };
    assert!(!by_vendor.matches(&device));
    assert!(!by_product.matches(&device));
    assert!(!by_serial.matches(&device));
    assert!(!by_serial.matches(&info(0x1d50, 0x615c, None)));
}

#[test]
fn agreeing_fields_accept_the_device() {
    let device = info(0x1d50, 0x615c, Some("abc"));
    let selector = DeviceSelector {
        vendor_id: Some(0x1d50),
        product_id: Some(0x615c),
        serial: Some("abc".into()),
    };
    assert!(selector.matches(&device));
}
