use g7pro::device::{find_g7pro, get_devices_by_vendor, InterfaceInfo, USAGE, USAGE_PAGE, VENDOR_ID};

fn iface(vendor_id: u16, product_id: u16, usage_page: u16, usage: u16) -> InterfaceInfo {
    InterfaceInfo { vendor_id, product_id, usage_page, usage }
}

#[test]
fn finds_vendor_interface() {
    let list = vec![
        iface(0x046d, 0xc52b, USAGE_PAGE, USAGE),
        iface(VENDOR_ID, 0x10c6, 0x0001, 0x0005),
        iface(VENDOR_ID, 0x10c6, USAGE_PAGE, USAGE),
        iface(VENDOR_ID, 0x0575, USAGE_PAGE, USAGE),
    ];
    assert_eq!(find_g7pro(&list), Some(2));
    assert_eq!(get_devices_by_vendor(&list, VENDOR_ID), vec![2, 3]);
    assert_eq!(get_devices_by_vendor(&list, 0x046d), vec![0]);
}

#[test]
fn none_when_absent() {
    let list = vec![iface(VENDOR_ID, 0x10c6, 0xfff1, USAGE), iface(VENDOR_ID, 1, USAGE_PAGE, 0x41)];
    assert_eq!(find_g7pro(&list), None);
    assert_eq!(find_g7pro(&[]), None);
    assert!(get_devices_by_vendor(&list, VENDOR_ID).is_empty());
}

#[test]
fn product_id_does_not_matter() {
    let idle = vec![iface(1, 2, 3, 4), iface(VENDOR_ID, 0x0575, USAGE_PAGE, USAGE)];
    let paired = vec![iface(1, 9, 3, 4), iface(VENDOR_ID, 0x10c6, USAGE_PAGE, USAGE)];
    assert_eq!(find_g7pro(&idle), Some(1));
    assert_eq!(find_g7pro(&paired), Some(1));
}
