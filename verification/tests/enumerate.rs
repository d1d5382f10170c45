use squeak::hid::enumerate::{
    find_all_config, find_config, find_non_config, first_usage_page, node_info, parse_hid_id,
    parse_hid_name, DeviceInfo, BUS_BLUETOOTH, BUS_USB, USAGE_PAGE_CONFIG,
};

#[test]
fn enumerate_test_parses_hid_id() {
    let ue = "HID_NAME=Keychron Ultra-Link 8K\nHID_ID=0003:00003434:0000D028\n";
    assert_eq!(parse_hid_id(ue), Some((BUS_USB, 0x3434, 0xD028)));
    assert_eq!(parse_hid_name(ue), "Keychron Ultra-Link 8K");
}

#[test]
fn enumerate_parses_hid_id() {
    let ue = "HID_NAME=Keychron Ultra-Link 8K\nHID_ID=0003:00003434:0000D028\n";
    let (_, vid, pid) = parse_hid_id(ue).unwrap();
    assert_eq!((vid, pid), (0x3434, 0xD028));
    assert_eq!(parse_hid_name(ue), "Keychron Ultra-Link 8K");
}

#[test]
fn parses_bluetooth_hid_id() {
    let ue = "HID_NAME=Keychron M6 8K\nHID_ID=0005:00003434:0000D049\n";
    assert_eq!(parse_hid_id(ue), Some((BUS_BLUETOOTH, 0x3434, 0xD049)));
}

#[test]
fn enumerate_test_finds_usage_page() {
    // 06 C1 FF = Usage Page 0xFFC1, then 09 01 = Usage.
    let desc = [0x06, 0xC1, 0xFF, 0x09, 0x01];
    assert_eq!(first_usage_page(&desc), Some(0xFFC1));
}

#[test]
fn enumerate_finds_usage_page() {
    let desc = [0x06, 0xC1, 0xFF, 0x09, 0x01];
    assert_eq!(first_usage_page(&desc), Some(0xFFC1));
}

fn info(bus: u16, pid: u16, usage_page: u16) -> DeviceInfo {
    DeviceInfo {
        node: "/dev/hidraw0".into(),
        bus,
        vid: 0x3434,
        pid,
        name: "Keychron".into(),
        usage_page,
    }
}

#[test]
fn transport_separates_bluetooth_from_the_cable() {
    // The cable and the Bluetooth link report the same PID, so only the bus
    // distinguishes them.
    assert_eq!(info(BUS_USB, 0xD049, 0).transport(), "wired");
    assert_eq!(info(BUS_BLUETOOTH, 0xD049, 0).transport(), "Bluetooth");
    assert_eq!(info(BUS_USB, 0xD028, 0).transport(), "2.4 GHz");
    assert_eq!(info(BUS_BLUETOOTH, 0xD028, 0).transport(), "Bluetooth");
}

#[test]
fn is_config_requires_the_vendor_usage_page() {
    assert!(info(BUS_USB, 0xD028, USAGE_PAGE_CONFIG).is_config());
    assert!(!info(BUS_USB, 0xD028, 0x0001).is_config());
    // The Bluetooth node carries no config collection.
    assert!(!info(BUS_BLUETOOTH, 0xD049, 0x0001).is_config());
}

#[test]
fn hid_id_rejects_malformed_lines() {
    assert_eq!(parse_hid_id("HID_NAME=x\n"), None);
    assert_eq!(parse_hid_id("HID_ID=0003:zz:0000D028\n"), None);
    assert_eq!(parse_hid_id("HID_ID=0003:00003434\n"), None);
    assert_eq!(parse_hid_name("HID_ID=0003:00003434:0000D028\n"), "");
}

#[test]
fn usage_page_needs_a_page_item() {
    assert_eq!(first_usage_page(&[0x09, 0x01]), None);
    // Only the two-byte page item (06 LO HI) counts.
    assert_eq!(first_usage_page(&[0x05, 0x01, 0x09, 0x02]), None);
    assert_eq!(first_usage_page(&[0x00, 0x06, 0x34, 0x12]), Some(0x1234));
    // An item cut off by the end of the descriptor is not read.
    assert_eq!(first_usage_page(&[0x00, 0x06, 0x34]), None);
}

#[test]
fn config_filters_keep_order() {
    let nodes = vec![
        info(BUS_USB, 0xD028, 0x0001),
        info(BUS_USB, 0xD028, USAGE_PAGE_CONFIG),
        info(BUS_BLUETOOTH, 0xD049, 0x0001),
        info(BUS_USB, 0xD049, USAGE_PAGE_CONFIG),
    ];
    let first = find_config(nodes.clone()).unwrap();
    assert_eq!(first.pid, 0xD028);
    assert_eq!(first.usage_page, USAGE_PAGE_CONFIG);
    let all = find_all_config(nodes.clone());
    assert_eq!(all.iter().map(|d| d.pid).collect::<Vec<_>>(), vec![0xD028, 0xD049]);
    let rest = find_non_config(nodes);
    assert_eq!(rest.iter().map(|d| d.bus).collect::<Vec<_>>(), vec![BUS_USB, BUS_BLUETOOTH]);
    assert!(find_config(Vec::new()).is_none());
}

#[test]
fn node_info_describes_a_keychron_node() {
    let ue = "HID_NAME=Keychron Ultra-Link 8K\nHID_ID=0003:00003434:0000D028\n";
    let d = node_info("hidraw3", ue, &[0x06, 0xC1, 0xFF, 0x09, 0x01]).unwrap();
    assert_eq!(d.node, "/dev/hidraw3");
    assert_eq!((d.bus, d.vid, d.pid), (BUS_USB, 0x3434, 0xD028));
    assert_eq!(d.name, "Keychron Ultra-Link 8K");
    assert_eq!(d.usage_page, USAGE_PAGE_CONFIG);
    // No usage page in the descriptor: 0.
    assert_eq!(node_info("hidraw3", ue, &[]).unwrap().usage_page, 0);
}

#[test]
fn node_info_skips_other_vendors_and_unreadable_ids() {
    assert!(node_info("hidraw0", "HID_ID=0003:0000046D:0000C52B\n", &[0x06, 0xC1, 0xFF]).is_none());
    assert!(node_info("hidraw0", "HID_NAME=x\n", &[0x06, 0xC1, 0xFF]).is_none());
}
