use hidapi::device_info::{BusType, WcharString};
use hidapi::error::HidError;
use hidapi::windows_native::dev_node::DevNode;
use hidapi::windows_native::device_info::{
    apply_hardware_ids, bus_type_of_compatible_ids, fill_blank, final_interface_number,
    initial_device_info, is_xusb, read_string, serial_from_instance_id, serial_node_is_parent,
};
use hidapi::windows_native::error::{
    check_boolean, check_config, config_to_error, hid_error_from, win_error_text, Win32Error,
    WinError,
};
use hidapi::windows_native::interfaces::{Interface, ListRead};
use hidapi::windows_native::io::{
    after_read_file, after_wait, after_write_file, ctl_code, deliver_report, feature_report_length,
    indexed_string, read_starts_transfer, retry_without_access, wait_timeout, AsyncState,
    ReadIssued, ReadWaited, WriteStep, INPUT_BUFFER_COUNT, IOCTL_HID_GET_FEATURE, STRING_BUF_LEN,
    WRITE_TIMEOUT_MS,
};
use hidapi::windows_native::string::{
    extract_int_token_value, find_first_upper_case, is_null, is_terminated,
    starts_with_ignore_case, to_upper, U16Str, U16String, U16StringList,
};
use hidapi::windows_native::types::{property_read, property_size, DeviceProperty, InternalBusType};

fn units(text: &str) -> Vec<u16> {
    text.encode_utf16().collect()
}

fn string(text: &str) -> U16Str {
    let mut all = units(text);
    all.push(0);
    U16Str::from_slice(&all)
}

#[test]
fn win32_codes() {
    assert_eq!(Win32Error::Success, Win32Error::from_code(0));
    assert_eq!(Win32Error::IoPending, Win32Error::from_code(997));
    assert_eq!(Win32Error::WaitTimedOut, Win32Error::from_code(996));
    assert_eq!(Win32Error::WaitTimedOut, Win32Error::from_code(258));
    assert_eq!(Win32Error::Generic(5), Win32Error::from_code(5));
    assert_eq!(WinError::WaitTimedOut, WinError::from(Win32Error::WaitTimedOut));
    assert_eq!(WinError::Win32(Win32Error::Generic(5)), WinError::from(Win32Error::Generic(5)));
    assert_eq!(WinError::Win32(Win32Error::IoPending), WinError::from(Win32Error::IoPending));
    assert_eq!(Ok(()), check_boolean(1, 5));
    assert_eq!(Err(WinError::Win32(Win32Error::Generic(5))), check_boolean(0, 5));
    assert_eq!(Err(WinError::WaitTimedOut), check_boolean(0, 258));
}

#[test]
fn configuration_manager_codes() {
    assert_eq!(WinError::BufferTooSmall, config_to_error(26));
    assert_eq!(WinError::InvalidDeviceId, config_to_error(30));
    assert_eq!(WinError::InvalidDeviceNode, config_to_error(5));
    assert_eq!(WinError::NoSuchValue, config_to_error(37));
    assert_eq!(WinError::Config(13), config_to_error(13));
    assert_eq!(WinError::Config(0), config_to_error(0));
    assert_eq!(Ok(()), check_config(0, 0));
    assert_eq!(Ok(()), check_config(26, 26));
    assert_eq!(Err(WinError::BufferTooSmall), check_config(26, 0));
    assert_eq!(Err(WinError::Config(0)), check_config(0, 26));
}

#[test]
fn windows_errors_as_library_errors() {
    assert!(matches!(
        hid_error_from(WinError::Win32(Win32Error::Generic(1167))),
        HidError::IoError { os_error: 1167 }
    ));
    assert!(matches!(
        hid_error_from(WinError::Win32(Win32Error::Generic(0x8000_0001))),
        HidError::IoError { os_error: -2147483647 }
    ));
    assert_eq!(
        "hidapi error: WinError: InvalidPreparsedData",
        hid_error_from(WinError::InvalidPreparsedData).message()
    );
    assert_eq!(
        "hidapi error: WinError: Win32(IoPending)",
        hid_error_from(WinError::Win32(Win32Error::IoPending)).message()
    );
    assert_eq!("Config(13)", win_error_text(WinError::Config(13)));
    assert_eq!("Win32(Generic(5))", win_error_text(WinError::Win32(Win32Error::Generic(5))));
    assert_eq!("Win32(Success)", win_error_text(WinError::Win32(Win32Error::Success)));
    assert_eq!("Win32(WaitTimedOut)", win_error_text(WinError::Win32(Win32Error::WaitTimedOut)));
    assert_eq!("BufferTooSmall", win_error_text(WinError::BufferTooSmall));
    assert_eq!("InvalidDeviceId", win_error_text(WinError::InvalidDeviceId));
    assert_eq!("InvalidDeviceNode", win_error_text(WinError::InvalidDeviceNode));
    assert_eq!("NoSuchValue", win_error_text(WinError::NoSuchValue));
    assert_eq!("WrongPropertyDataType", win_error_text(WinError::WrongPropertyDataType));
    assert_eq!("UnexpectedReturnSize", win_error_text(WinError::UnexpectedReturnSize));
    assert_eq!("WaitTimedOut", win_error_text(WinError::WaitTimedOut));
}

#[test]
fn property_queries() {
    assert_eq!(18, DeviceProperty::Text.type_code());
    assert_eq!(0x2012, DeviceProperty::TextList.type_code());
    assert_eq!(13, DeviceProperty::Guid.type_code());
    assert!(DeviceProperty::Guid.holds(16));
    assert!(!DeviceProperty::Guid.holds(18));
    assert!(DeviceProperty::Text.holds(18));
    assert!(!DeviceProperty::TextList.holds(7));
    assert_eq!(Ok(40), property_size(26, 18, DeviceProperty::Text, 40));
    assert_eq!(
        Err(WinError::WrongPropertyDataType),
        property_size(26, 18, DeviceProperty::TextList, 40)
    );
    assert_eq!(Err(WinError::NoSuchValue), property_size(37, 18, DeviceProperty::Text, 40));
    assert_eq!(Err(WinError::Config(0)), property_size(0, 18, DeviceProperty::Text, 40));
    assert_eq!(Ok(()), property_read(0, 40, 40));
    assert_eq!(Err(WinError::UnexpectedReturnSize), property_read(0, 40, 38));
    assert_eq!(Err(WinError::BufferTooSmall), property_read(26, 40, 40));
    assert_eq!(Ok(DevNode(7)), DevNode::located(0, 7));
    assert_eq!(7, DevNode(7).as_raw());
    assert_eq!(Err(WinError::InvalidDeviceId), DevNode::located(30, 7));
    assert_eq!(Err(WinError::InvalidDeviceNode), DevNode::located(5, 0));
}

#[test]
fn interface_list_reads() {
    let list = units("\\\\?\\HID#A\0\\\\?\\HID#B\0\0");
    match Interface::after_list_read(0, list.clone()) {
        ListRead::Done(found) => {
            let paths = found.iter();
            assert_eq!(3, paths.len());
            assert_eq!(units("\\\\?\\HID#A"), paths[0].as_slice());
            assert_eq!(units("\\\\?\\HID#B"), paths[1].as_slice());
            assert!(paths[2].as_slice().is_empty());
        }
        other => panic!("{:?}", other),
    }
    assert!(matches!(Interface::after_list_read(26, list.clone()), ListRead::Again));
    assert!(matches!(
        Interface::after_list_read(13, list),
        ListRead::Failed(WinError::Config(13))
    ));
}

#[test]
fn string_utilities() {
    assert!(is_null(&0));
    assert!(!is_null(&0x30));
    let mut id = units("usb\\vid_046d&Pid_c077\u{e9}");
    to_upper(&mut id);
    assert_eq!(units("USB\\VID_046D&PID_C077\u{e9}"), id);
    assert_eq!(Some(4), find_first_upper_case(&id, "VID_"));
    assert_eq!(Some(0), find_first_upper_case(&id, ""));
    assert_eq!(Some(0), find_first_upper_case(&id, "USB"));
    assert_eq!(None, find_first_upper_case(&id, "vid_"));
    assert_eq!(None, find_first_upper_case(&units("VI"), "VID_"));
    assert_eq!(Some(0), find_first_upper_case(&[], ""));
    assert!(starts_with_ignore_case(&units("USB\\Class_03"), "usb"));
    assert!(starts_with_ignore_case(&units("bthledevice"), "BTHLEDEVICE"));
    assert!(!starts_with_ignore_case(&units("BTHENUM"), "BTHLEDEVICE"));
    assert!(!starts_with_ignore_case(&units("xUSB"), "USB"));
    assert_eq!(Some(0x046D), extract_int_token_value(&id, "VID_"));
    assert_eq!(Some(0xC077), extract_int_token_value(&id, "PID_"));
    assert_eq!(None, extract_int_token_value(&id, "REV_"));
    assert_eq!(None, extract_int_token_value(&units("MI_"), "MI_"));
    assert_eq!(None, extract_int_token_value(&units("MI_&0"), "MI_"));
    assert_eq!(Some(1), extract_int_token_value(&units("A&MI_01&MI_02"), "MI_"));
    assert_eq!(Some(0xab), extract_int_token_value(&units("REV_ab"), "REV_"));
    assert_eq!(
        Some(0x2345_6789),
        extract_int_token_value(&units("REV_123456789"), "REV_")
    );
}

#[test]
fn strings_with_their_zero() {
    assert!(is_terminated(&[0x41, 0]));
    assert!(!is_terminated(&[0x41]));
    assert!(!is_terminated(&[]));
    assert!(U16Str::try_from_slice(&[0x41]).is_none());
    let mut text = U16Str::try_from_slice(&[0x61, 0x62, 0]).expect("terminated");
    assert_eq!(&[0x61, 0x62], text.as_slice());
    text.make_uppercase_ascii();
    assert_eq!(&[0x41, 0x42], text.as_slice());
    assert_eq!(vec![0x41, 0x42, 0], text.0);
    assert!(text.starts_with_ignore_case("ab"));
    assert!(!text.starts_with_ignore_case("b"));
    assert_eq!(Some(1), text.find_index("B"));
    assert_eq!(None, text.find_index("C"));
    assert_eq!(Some("AB".to_string()), text.to_text());
    assert_eq!(Some("AB"), text.to_wchar_string().as_str());
    let broken = U16Str::from_slice(&[0xD800, 0]);
    assert_eq!(None, broken.to_text());
    assert_eq!(Some(&[0xD800u32][..]), broken.to_wchar_string().as_raw());

    let pieces = U16Str::from_slice_list(&[0x41, 0, 0x42, 0x43, 0, 0x44]);
    assert_eq!(2, pieces.len());
    assert_eq!(vec![0x41, 0], pieces[0].0);
    assert_eq!(vec![0x42, 0x43, 0], pieces[1].0);
    assert!(U16Str::from_slice_list(&[]).is_empty());
    let list = U16StringList(vec![0x41, 0, 0]);
    assert_eq!(2, list.iter().len());

    assert_eq!(vec![0u16; 3], U16String::create_sized(6).expect("even").0);
    assert!(U16String::create_sized(7).is_none());
    assert!(U16String::create_sized(0).expect("even").0.is_empty());
    assert!(U16String::create_sized(0).expect("even").as_u16str().is_none());
    let path = U16String::from_text("\\\\?\\hid");
    assert_eq!(8, path.0.len());
    assert_eq!(units("\\\\?\\hid"), path.as_u16str().expect("terminated").as_slice());
}

#[test]
fn strings_of_the_hid_stack() {
    let mut scratch = [0u16; 256];
    scratch[0] = 0x4C;
    scratch[1] = 0x6F;
    scratch[3] = 0x67;
    assert_eq!(Some("Lo"), read_string(true, &scratch).as_str());
    assert_eq!(Some(""), read_string(false, &scratch).as_str());
    assert_eq!(Some(""), read_string(true, &[0u16; 256]).as_str());
    assert_eq!(Some("g"), read_string(true, &[0x67]).as_str());
    assert_eq!(Some(&[0xDC00u32][..]), read_string(true, &[0xDC00, 0]).as_raw());
}

#[test]
fn buses_of_compatible_ids() {
    let ids = |texts: &[&str]| texts.iter().map(|text| string(text)).collect::<Vec<U16Str>>();
    assert_eq!(
        InternalBusType::Usb,
        bus_type_of_compatible_ids(&ids(&["usb\\Class_03&SubClass_01", "USB\\Class_03"]))
    );
    assert_eq!(
        InternalBusType::Bluetooth,
        bus_type_of_compatible_ids(&ids(&["HID_DEVICE", "BTHENUM\\{1124}"]))
    );
    assert_eq!(
        InternalBusType::BluetoothLE,
        bus_type_of_compatible_ids(&ids(&["BTHLEDevice\\{1812}", "USB"]))
    );
    assert_eq!(InternalBusType::I2c, bus_type_of_compatible_ids(&ids(&["PNP0C50"])));
    assert_eq!(InternalBusType::Spi, bus_type_of_compatible_ids(&ids(&["pnp0c51"])));
    assert_eq!(InternalBusType::Unknown, bus_type_of_compatible_ids(&ids(&["ACPI\\PNP0C5"])));
    assert_eq!(InternalBusType::Unknown, bus_type_of_compatible_ids(&[]));
    assert_eq!(BusType::Bluetooth, InternalBusType::BluetoothLE.bus_type());
    assert_eq!(BusType::Bluetooth, InternalBusType::Bluetooth.bus_type());
    assert_eq!(BusType::Usb, InternalBusType::Usb.bus_type());
    assert_eq!(BusType::I2c, InternalBusType::I2c.bus_type());
    assert_eq!(BusType::Spi, InternalBusType::Spi.bus_type());
    assert_eq!(BusType::Unknown, InternalBusType::Unknown.bus_type());
}

#[test]
fn usb_device_from_its_nodes() {
    let mut info = initial_device_info(
        b"\\\\?\\hid#vid_046d&pid_c077".to_vec(),
        0x046D,
        0xC077,
        0,
        WcharString::String(String::new()),
        WcharString::String(String::new()),
        WcharString::String("USB Optical Mouse".to_string()),
        1,
        2,
    );
    assert_eq!(-1, info.interface_number());
    assert_eq!(BusType::Unknown, info.bus_type());
    assert_eq!(0, info.release_number());
    assert_eq!((1, 2), (info.usage_page(), info.usage()));
    assert!(!serial_node_is_parent(&info));

    assert!(is_xusb(&string("HID\\VID_045E&PID_02FF&ig_00\\8&1")));
    assert!(!is_xusb(&string("HID\\VID_045E&PID_02FF\\8&1")));
    assert!(!is_xusb(&string("HID\\VID_045E&IG_\\8&1")));

    let ids = vec![
        string("USB\\VID_046D&PID_C077&rev_7200&mi_01"),
        string("USB\\VID_046D&PID_C077&REV_0001&MI_02"),
    ];
    apply_hardware_ids(&mut info, &ids);
    assert_eq!(0x7200, info.release_number());
    assert_eq!(1, info.interface_number());
    assert_eq!(0x046D, info.vendor_id());
    assert_eq!(Some("USB Optical Mouse"), info.product_string());
    assert!(serial_node_is_parent(&info));
    apply_hardware_ids(&mut info, &[string("USB\\REV_1&MI_7")]);
    assert_eq!(0x7200, info.release_number());
    assert_eq!(1, info.interface_number());

    let filled = fill_blank(
        WcharString::String(String::new()),
        Some(WcharString::String("Logitech".to_string())),
    );
    assert_eq!(Some("Logitech"), filled.as_str());
    let kept = fill_blank(
        WcharString::String("Microsoft".to_string()),
        Some(WcharString::String("Logitech".to_string())),
    );
    assert_eq!(Some("Microsoft"), kept.as_str());
    assert_eq!(Some(""), fill_blank(WcharString::String(String::new()), None).as_str());
    assert_eq!(
        Some("x"),
        fill_blank(WcharString::Absent, Some(WcharString::String("x".to_string()))).as_str()
    );

    let serial = serial_from_instance_id(&string("USB\\VID_046D&PID_C077\\5&2c0a&0&2"));
    assert_eq!(Some("5"), serial.expect("serial").as_str());
    let serial = serial_from_instance_id(&string("USB\\VID_046D\\0123456789AB"));
    assert_eq!(Some("0123456789AB"), serial.expect("serial").as_str());
    let serial = serial_from_instance_id(&string("USB\\"));
    assert_eq!(Some(""), serial.expect("serial").as_str());
    assert!(serial_from_instance_id(&string("USB")).is_none());

    assert_eq!(0, final_interface_number(-1));
    assert_eq!(3, final_interface_number(3));
    assert_eq!(0, final_interface_number(0));
}

#[test]
fn hardware_ids_keep_the_bits_of_their_fields() {
    let mut info = initial_device_info(
        Vec::new(),
        1,
        2,
        0,
        WcharString::Absent,
        WcharString::Absent,
        WcharString::Absent,
        0,
        0,
    );
    apply_hardware_ids(&mut info, &[string("REV_12345&MI_FFFFFFFE")]);
    assert_eq!(0x2345, info.release_number());
    assert_eq!(-2, info.interface_number());
}

#[test]
fn transfer_buffers() {
    assert_eq!(64, INPUT_BUFFER_COUNT);
    assert_eq!(1000, WRITE_TIMEOUT_MS);
    assert_eq!(128, STRING_BUF_LEN);
    assert_eq!(0x000B_0192, IOCTL_HID_GET_FEATURE);
    assert_eq!(IOCTL_HID_GET_FEATURE, ctl_code(0x0b, 100, 2, 0));
    assert_eq!(0x0022_2004 | 0xC000, ctl_code(0x22, 0x801, 0, 3));
    let mut state = AsyncState::new(4);
    assert_eq!(vec![0u8; 4], state.buffer);
    assert_eq!(4, state.buffer_len());
    state.fill_buffer(&[1, 2]);
    assert_eq!(vec![1, 2, 0, 0], state.buffer);
    assert!(state.write_uses_buffer(&[1, 2]));
    assert!(!state.write_uses_buffer(&[1, 2, 3, 4]));
    state.fill_buffer(&[9, 8, 7, 6, 5]);
    assert_eq!(vec![9, 8, 7, 6], state.buffer);
    state.clear_buffer();
    assert_eq!(vec![0u8; 4], state.buffer);
    assert!(AsyncState::new(0).buffer.is_empty());
}

#[test]
fn opening_and_writing() {
    assert!(retry_without_access(Win32Error::Generic(5)));
    assert!(!retry_without_access(Win32Error::Generic(2)));
    assert!(!retry_without_access(Win32Error::IoPending));
    assert!(matches!(after_write_file(true, Win32Error::Success), WriteStep::Done));
    assert!(matches!(after_write_file(true, Win32Error::Generic(5)), WriteStep::Done));
    assert!(matches!(after_write_file(false, Win32Error::IoPending), WriteStep::Wait(1000)));
    assert!(matches!(
        after_write_file(false, Win32Error::Generic(1167)),
        WriteStep::Failed(HidError::IoError { os_error: 1167 })
    ));
    match after_write_file(false, Win32Error::WaitTimedOut) {
        WriteStep::Failed(error) => {
            assert_eq!("hidapi error: WinError: WaitTimedOut", error.message())
        }
        _ => panic!("a write that failed"),
    }
}

#[test]
fn reading_without_data_keeps_the_transfer() {
    // The first read starts a transfer and gives up after its time.
    assert!(read_starts_transfer(false));
    assert!(matches!(after_read_file(false, Win32Error::IoPending), ReadIssued::Wait));
    assert_eq!(Some(0), wait_timeout(0));
    let waited = after_wait(Err(WinError::WaitTimedOut));
    assert!(matches!(waited, ReadWaited::TimedOut));
    assert!(waited.read_pending());
    // The second read waits for the same transfer, without end.
    assert!(!read_starts_transfer(true));
    assert_eq!(None, wait_timeout(-1));
    let waited = after_wait(Ok(9));
    assert!(matches!(waited, ReadWaited::Data(9)));
    assert!(!waited.read_pending());
    let mut buf = [0xEEu8; 8];
    let copied = deliver_report(&[0, 1, 2, 3, 4, 5, 6, 7, 8], 9, &mut buf);
    assert_eq!(8, copied);
    assert_eq!([1, 2, 3, 4, 5, 6, 7, 8], buf);
}

#[test]
fn reads_that_fail_or_deliver() {
    assert!(matches!(after_read_file(true, Win32Error::Success), ReadIssued::Wait));
    assert!(matches!(
        after_read_file(false, Win32Error::Generic(1167)),
        ReadIssued::Failed(HidError::IoError { os_error: 1167 })
    ));
    let failed = after_wait(Err(WinError::Win32(Win32Error::Generic(995))));
    assert!(matches!(failed, ReadWaited::Failed(HidError::IoError { os_error: 995 })));
    assert!(!failed.read_pending());
    assert_eq!(Some(5000), wait_timeout(5000));
    assert_eq!(Some(i32::MAX as u32), wait_timeout(i32::MAX));
    assert_eq!(None, wait_timeout(i32::MIN));

    // A numbered report keeps its first byte.
    let mut buf = [0xEEu8; 4];
    assert_eq!(3, deliver_report(&[7, 1, 2, 0, 0], 3, &mut buf));
    assert_eq!([7, 1, 2, 0xEE], buf);
    // A report longer than the buffer of the caller is cut.
    let mut buf = [0xEEu8; 2];
    assert_eq!(2, deliver_report(&[7, 1, 2, 3], 4, &mut buf));
    assert_eq!([7, 1], buf);
    // Nothing was read.
    let mut buf = [0xEEu8; 2];
    assert_eq!(0, deliver_report(&[0, 0, 0], 0, &mut buf));
    assert_eq!([0xEE, 0xEE], buf);
    // Only the byte of the report id was read.
    assert_eq!(0, deliver_report(&[0, 5, 5], 1, &mut buf));
    assert_eq!([0xEE, 0xEE], buf);
    // More bytes were announced than the buffer of the transfer holds.
    let mut buf = [0xEEu8; 8];
    assert_eq!(2, deliver_report(&[0, 5, 6], 9, &mut buf));
    assert_eq!([5, 6, 0xEE, 0xEE, 0xEE, 0xEE, 0xEE, 0xEE], buf);
}

#[test]
fn feature_reports_and_indexed_strings() {
    assert_eq!(9, feature_report_length(8, 0));
    assert_eq!(8, feature_report_length(8, 3));
    assert_eq!(1, feature_report_length(0, 0));
    assert_eq!("Mic", indexed_string(&[0x4D, 0x69, 0x63, 0, 0x41, 0]));
    assert_eq!("", indexed_string(&[0; 128]));
    assert_eq!("ab", indexed_string(&[0x61, 0x62]));
    assert_eq!("a\u{FFFD}\u{1F600}", indexed_string(&[0x61, 0xD800, 0xD83D, 0xDE00, 0]));
}
