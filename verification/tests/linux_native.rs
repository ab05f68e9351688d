use hidapi::device_info::{BusType, WcharString};
use hidapi::error::HidError;
use hidapi::linux_native::{
    after_poll, bus_type_of, char_device_syspath, check_report_data, copy_descriptor,
    device_to_hid_device_info, feature_report_sent, find_device, hid_item_size, hid_report_bytes,
    parse_hid_vid_pid, read_outcome, read_timeout_for, HidApiBackend, HidrawProperties,
    HidrawReportDescriptor, ReadStep, UsbAttributes,
};

#[test]
fn linux_native_test_parse_hid_vid_pid() {
    assert_eq!(None, parse_hid_vid_pid("Hello World"));
    assert_eq!(Some((1, 1, 1)), parse_hid_vid_pid("1:1:1"));
    assert_eq!(Some((0x11, 0x17, 0x18)), parse_hid_vid_pid("11:0017:00018"));
}

#[test]
fn linux_udev_test_parse_hid_vid_pid() {
    assert_eq!(None, parse_hid_vid_pid("Hello World"));
    assert_eq!(Some((1, 1, 1)), parse_hid_vid_pid("1:1:1"));
    assert_eq!(Some((0x11, 0x17, 0x18)), parse_hid_vid_pid("11:0017:00018"));
}

#[test]
fn parse_hid_vid_pid_takes_a_real_id() {
    assert_eq!(
        Some((0x0003, 0x05AC, 0x8242)),
        parse_hid_vid_pid("0003:000005AC:00008242")
    );
    assert_eq!(Some((0x18, 0xabcd, 0xffff)), parse_hid_vid_pid("18:abcd:FFFF"));
}

#[test]
fn parse_hid_vid_pid_refuses_other_shapes() {
    assert_eq!(None, parse_hid_vid_pid(""));
    assert_eq!(None, parse_hid_vid_pid("1:1"));
    assert_eq!(None, parse_hid_vid_pid("1:1:1:1"));
    assert_eq!(None, parse_hid_vid_pid("1::1"));
    assert_eq!(None, parse_hid_vid_pid(":1:1"));
    assert_eq!(None, parse_hid_vid_pid("1:1:"));
    assert_eq!(None, parse_hid_vid_pid("1:g:1"));
    assert_eq!(None, parse_hid_vid_pid("+1:1:1"));
    assert_eq!(None, parse_hid_vid_pid("1:10000:1"));
    assert_eq!(None, parse_hid_vid_pid("1:1:1 "));
    assert_eq!(None, parse_hid_vid_pid("1:\u{e9}:1"));
}

fn usages_of(bytes: &[u8]) -> Vec<(u16, u16)> {
    let descriptor = HidrawReportDescriptor::from_slice(bytes).expect("descriptor");
    descriptor.usages()
}

#[test]
fn test_hidraw_report_descriptor_1() {
    // A vendor-defined device: one application collection on page 0xFFBC.
    let data: [u8; 23] = [
        0x06, 0xBC, 0xFF, 0x09, 0x88, 0xA1, 0x01, 0x85, 0x04, 0x19, 0x01, 0x29, 0xFF, 0x15, 0x01,
        0x26, 0xFF, 0x00, 0x75, 0x08, 0x95, 0x01, 0x81,
    ];
    let mut descriptor = data.to_vec();
    descriptor.extend_from_slice(&[0x00, 0xC0]);
    let values = usages_of(&descriptor);
    assert_eq!(vec![(65468, 136)], values);
}

#[test]
fn test_hidraw_report_descriptor_2() {
    // A mouse with a system control, a consumer control and a vendor
    // collection behind it.
    let descriptor: Vec<u8> = vec![
        0x05, 0x01, 0x09, 0x02, 0xA1, 0x01, 0x85, 0x02, 0x09, 0x01, 0xA1, 0x00, 0x05, 0x09, 0x19,
        0x01, 0x29, 0x10, 0x15, 0x00, 0x25, 0x01, 0x95, 0x10, 0x75, 0x01, 0x81, 0x02, 0x05, 0x01,
        0x16, 0x01, 0xF8, 0x26, 0xFF, 0x07, 0x75, 0x0C, 0x95, 0x02, 0x09, 0x30, 0x09, 0x31, 0x81,
        0x06, 0x15, 0x81, 0x25, 0x7F, 0x75, 0x08, 0x95, 0x01, 0x09, 0x38, 0x81, 0x06, 0xC0, 0xC0,
        0x05, 0x01, 0x09, 0x80, 0xA1, 0x01, 0x85, 0x04, 0x75, 0x02, 0x95, 0x01, 0x15, 0x01, 0x25,
        0x03, 0x09, 0x82, 0x09, 0x81, 0x09, 0x83, 0x81, 0x60, 0x75, 0x06, 0x81, 0x03, 0xC0, 0x05,
        0x0C, 0x09, 0x01, 0xA1, 0x01, 0x85, 0x03, 0x75, 0x10, 0x95, 0x02, 0x15, 0x01, 0x26, 0x8C,
        0x02, 0x19, 0x01, 0x2A, 0x8C, 0x02, 0x81, 0x00, 0xC0, 0x06, 0x00, 0xFF, 0x09, 0x0E, 0xA1,
        0x01, 0x85, 0x10, 0x75, 0x08, 0x95, 0x06, 0x15, 0x00, 0x26, 0xFF, 0x00, 0x09, 0x01, 0x81,
        0x00, 0x09, 0x01, 0x91, 0x00, 0xC0,
    ];
    let values = usages_of(&descriptor);
    let expected = vec![(1, 2), (1, 1), (1, 128), (12, 1), (65280, 14)];
    assert_eq!(expected, values);
}

#[test]
fn usages_of_a_descriptor_without_collection() {
    // A usage page and a usage, and no collection: the one pair at the end.
    assert_eq!(vec![(1, 6)], usages_of(&[0x05, 0x01, 0x09, 0x06]));
    // An input item puts the usage away.
    assert_eq!(
        Vec::<(u16, u16)>::new(),
        usages_of(&[0x05, 0x01, 0x09, 0x06, 0x81, 0x02])
    );
    assert_eq!(Vec::<(u16, u16)>::new(), usages_of(&[]));
    assert_eq!(Vec::<(u16, u16)>::new(), usages_of(&[0x05, 0x01]));
}

#[test]
fn usages_stop_at_cut_off_items() {
    // The data of the usage is cut off: the scan ends without it.
    assert_eq!(Vec::<(u16, u16)>::new(), usages_of(&[0x05, 0x01, 0x0A, 0x06]));
    // The data of a later usage page is cut off: the usage before counts.
    assert_eq!(vec![(1, 6)], usages_of(&[0x05, 0x01, 0x09, 0x06, 0x06, 0x01]));
    // A long item without its length byte ends the scan with nothing more.
    assert_eq!(Vec::<(u16, u16)>::new(), usages_of(&[0x05, 0x01, 0x09, 0x06, 0xFE]));
    // A collection found before stays.
    assert_eq!(
        vec![(1, 6)],
        usages_of(&[0x05, 0x01, 0x09, 0x06, 0xA1, 0x01, 0x09, 0x07, 0xFE])
    );
}

#[test]
fn usages_skip_long_items_and_take_wide_data() {
    // A long item of two data bytes between the usage and the collection.
    assert_eq!(
        vec![(0x0C, 1)],
        usages_of(&[0x05, 0x0C, 0x09, 0x01, 0xFE, 0x02, 0x00, 0x09, 0x44, 0xA1, 0x01, 0xC0])
    );
    // A usage of four bytes keeps its low 16 bits; an empty usage page is 0.
    assert_eq!(
        vec![(0, 0x1234)],
        usages_of(&[0x04, 0x0B, 0x34, 0x12, 0x09, 0x00, 0xA1, 0x01, 0xC0])
    );
    // No pair at the end once a collection has given one.
    assert_eq!(
        vec![(1, 2)],
        usages_of(&[0x05, 0x01, 0x09, 0x02, 0xA1, 0x01, 0xC0, 0x09, 0x03])
    );
}

#[test]
fn item_sizes_and_data() {
    assert_eq!(Some((0, 1)), hid_item_size(0xC0, &[], 0));
    assert_eq!(Some((1, 1)), hid_item_size(0x05, &[], 0));
    assert_eq!(Some((2, 1)), hid_item_size(0x06, &[], 0));
    assert_eq!(Some((4, 1)), hid_item_size(0x17, &[], 0));
    assert_eq!(Some((9, 3)), hid_item_size(0xFE, &[1, 9], 1));
    assert_eq!(None, hid_item_size(0xFE, &[1, 9], 2));
    assert_eq!(Some(0), hid_report_bytes(&[1, 2, 3, 4, 5], 1, 0));
    assert_eq!(Some(2), hid_report_bytes(&[1, 2, 3, 4, 5], 1, 1));
    assert_eq!(Some(0x0302), hid_report_bytes(&[1, 2, 3, 4, 5], 1, 2));
    assert_eq!(Some(0x05040302), hid_report_bytes(&[1, 2, 3, 4, 5], 1, 4));
    assert_eq!(None, hid_report_bytes(&[1, 2, 3, 4, 5], 2, 4));
}

fn text(value: &str) -> Option<String> {
    Some(value.to_string())
}

fn usb_mouse() -> HidrawProperties {
    HidrawProperties {
        hid_id: text("0003:0000046D:0000C077"),
        hid_name: text("Logitech USB Optical Mouse"),
        hid_uniq: text(""),
        devnode: Some(b"/dev/hidraw0".to_vec()),
        usb_device: Some(UsbAttributes {
            manufacturer: text("Logitech"),
            product: text("USB Optical Mouse"),
            bcd_device: text("7200"),
        }),
        interface_number: text("00"),
        report_descriptor: Some(vec![0x05, 0x01, 0x09, 0x02, 0xA1, 0x01, 0xC0]),
    }
}

#[test]
fn usb_device_record() {
    let infos = device_to_hid_device_info(&usb_mouse()).expect("records");
    assert_eq!(1, infos.len());
    let info = &infos[0];
    assert_eq!(b"/dev/hidraw0", info.path());
    assert_eq!(0x046D, info.vendor_id());
    assert_eq!(0xC077, info.product_id());
    assert_eq!(Some(""), info.serial_number());
    assert_eq!(0x7200, info.release_number());
    assert_eq!(Some("Logitech"), info.manufacturer_string());
    assert_eq!(Some("USB Optical Mouse"), info.product_string());
    assert_eq!(1, info.usage_page());
    assert_eq!(2, info.usage());
    assert_eq!(0, info.interface_number());
    assert_eq!(BusType::Usb, info.bus_type());
    assert!(info.serial_number_raw().is_none());
}

#[test]
fn usb_device_without_usb_parent_or_attributes() {
    let mut properties = usb_mouse();
    properties.usb_device = None;
    let infos = device_to_hid_device_info(&properties).expect("records");
    assert_eq!(Some(""), infos[0].manufacturer_string());
    assert_eq!(Some("Logitech USB Optical Mouse"), infos[0].product_string());
    assert_eq!(0, infos[0].release_number());
    assert_eq!(-1, infos[0].interface_number());

    let mut properties = usb_mouse();
    properties.usb_device = Some(UsbAttributes {
        manufacturer: None,
        product: None,
        bcd_device: text("zz"),
    });
    properties.interface_number = None;
    let infos = device_to_hid_device_info(&properties).expect("records");
    assert_eq!(None, infos[0].manufacturer_string());
    assert!(matches!(infos[0].product_string, WcharString::Absent));
    assert_eq!(0, infos[0].release_number());
    assert_eq!(-1, infos[0].interface_number());
}

#[test]
fn one_record_for_each_usage() {
    let mut properties = usb_mouse();
    properties.hid_id = text("0005:0000046D:0000B010");
    properties.report_descriptor = Some(vec![
        0x05, 0x01, 0x09, 0x02, 0xA1, 0x01, 0xC0, 0x05, 0x0C, 0x09, 0x01, 0xA1, 0x01, 0xC0,
    ]);
    let infos = device_to_hid_device_info(&properties).expect("records");
    assert_eq!(2, infos.len());
    assert_eq!((1, 2), (infos[0].usage_page(), infos[0].usage()));
    assert_eq!((12, 1), (infos[1].usage_page(), infos[1].usage()));
    assert_eq!(BusType::Bluetooth, infos[1].bus_type());
    assert_eq!(Some(""), infos[1].manufacturer_string());
    assert_eq!(Some("Logitech USB Optical Mouse"), infos[1].product_string());
    assert_eq!(infos[0].path(), infos[1].path());

    // No usage in the descriptor, or no descriptor: the one record.
    properties.report_descriptor = Some(vec![0x05, 0x01]);
    assert_eq!(1, device_to_hid_device_info(&properties).expect("records").len());
    properties.report_descriptor = None;
    let infos = device_to_hid_device_info(&properties).expect("records");
    assert_eq!(1, infos.len());
    assert_eq!((0, 0), (infos[0].usage_page(), infos[0].usage()));
}

#[test]
fn devices_without_a_record() {
    let mut properties = usb_mouse();
    properties.hid_id = text("0001:0000046D:0000C077");
    assert!(device_to_hid_device_info(&properties).is_none());
    let mut properties = usb_mouse();
    properties.hid_id = text("Hello World");
    assert!(device_to_hid_device_info(&properties).is_none());
    let mut properties = usb_mouse();
    properties.hid_name = None;
    assert!(device_to_hid_device_info(&properties).is_none());
    let mut properties = usb_mouse();
    properties.hid_uniq = None;
    assert!(device_to_hid_device_info(&properties).is_none());
    let mut properties = usb_mouse();
    properties.devnode = None;
    assert!(device_to_hid_device_info(&properties).is_none());
    let mut properties = usb_mouse();
    properties.devnode = Some(b"/dev/\0hidraw0".to_vec());
    assert!(device_to_hid_device_info(&properties).is_none());
    let mut properties = usb_mouse();
    properties.devnode = Some(Vec::new());
    assert!(device_to_hid_device_info(&properties).is_none());
}

#[test]
fn buses() {
    assert_eq!(Some(BusType::Usb), bus_type_of(0x03));
    assert_eq!(Some(BusType::Bluetooth), bus_type_of(0x05));
    assert_eq!(Some(BusType::I2c), bus_type_of(0x18));
    assert_eq!(Some(BusType::Spi), bus_type_of(0x1C));
    assert_eq!(None, bus_type_of(0x00));
    assert_eq!(None, bus_type_of(0x06));
}

#[test]
fn enumeration_filters_by_ids() {
    let mut keyboard = usb_mouse();
    keyboard.hid_id = text("0003:000004D9:0000A052");
    keyboard.devnode = Some(b"/dev/hidraw1".to_vec());
    let mut broken = usb_mouse();
    broken.hid_id = None;
    let devices = vec![usb_mouse(), broken, keyboard];
    let all = HidApiBackend::get_hid_device_info_vector(&devices, 0, 0).expect("list");
    assert_eq!(2, all.len());
    assert_eq!(b"/dev/hidraw0", all[0].path());
    assert_eq!(b"/dev/hidraw1", all[1].path());
    let some = HidApiBackend::get_hid_device_info_vector(&devices, 0x04D9, 0).expect("list");
    assert_eq!(1, some.len());
    assert_eq!(0xA052, some[0].product_id());
    let none = HidApiBackend::get_hid_device_info_vector(&devices, 0x04D9, 1).expect("list");
    assert!(none.is_empty());
    // Enumerating twice gives the same records.
    let again = HidApiBackend::get_hid_device_info_vector(&devices, 0, 0).expect("list");
    assert_eq!(all.len(), again.len());
    assert_eq!(all[1].path(), again[1].path());

    assert_eq!(Some(1), find_device(&all, 0x04D9, 0xA052, None));
    assert_eq!(Some(0), find_device(&all, 0x046D, 0xC077, Some("")));
    assert_eq!(None, find_device(&all, 0x046D, 0xC077, Some("1234")));
    assert_eq!(None, find_device(&all, 1, 2, None));
}

#[test]
fn reads_and_writes() {
    assert_eq!(-1, read_timeout_for(true));
    assert_eq!(0, read_timeout_for(false));
    assert!(matches!(check_report_data(&[]), Err(HidError::InvalidZeroSizeData)));
    assert!(check_report_data(&[0]).is_ok());
    assert_eq!(ReadStep::NoData, after_poll(0, Some(0)));
    assert_eq!(ReadStep::Read, after_poll(1, Some(0x01)));
    assert_eq!(ReadStep::Disconnected, after_poll(1, None));
    assert_eq!(ReadStep::Disconnected, after_poll(1, Some(0x08)));
    assert_eq!(ReadStep::Disconnected, after_poll(1, Some(0x11)));
    assert_eq!(ReadStep::Disconnected, after_poll(1, Some(0x20)));
    assert_eq!(ReadStep::Read, after_poll(1, Some(0x41)));
    assert!(matches!(read_outcome(Ok(8)), Ok(8)));
    assert!(matches!(read_outcome(Err(11)), Ok(0)));
    assert!(matches!(read_outcome(Err(115)), Ok(0)));
    assert!(matches!(read_outcome(Err(5)), Err(HidError::IoError { os_error: 5 })));
    assert!(feature_report_sent(8, 8).is_ok());
    assert!(matches!(
        feature_report_sent(3, 8),
        Err(HidError::IncompleteSendError { sent: 3, all: 8 })
    ));
}

#[test]
fn send_feature_report_with_empty_data() {
    let result = check_report_data(&[]);
    assert!(matches!(result, Err(HidError::InvalidZeroSizeData)));
    assert_eq!(
        "Invalid data: size can not be 0",
        result.unwrap_err().message()
    );
}

#[test]
fn descriptor_copies() {
    let mut small = [9u8; 2];
    assert_eq!(2, copy_descriptor(&mut small, &[1, 2, 3]));
    assert_eq!([1, 2], small);
    let mut large = [9u8; 5];
    assert_eq!(3, copy_descriptor(&mut large, &[1, 2, 3]));
    assert_eq!([1, 2, 3, 9, 9], large);
}

#[test]
fn sysfs_paths() {
    assert_eq!("/sys/dev/char/0:0", char_device_syspath(0));
    // The third hidraw node: major 243, minor 2.
    assert_eq!("/sys/dev/char/243:2", char_device_syspath((243 << 8) | 2));
    // High bits of both numbers.
    assert_eq!(
        "/sys/dev/char/4096:256",
        char_device_syspath((0x1000u64 << 32) | (0x100u64 << 12))
    );
}
