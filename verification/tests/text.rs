use hidapi::device_info::{u16str_to_wstring, wchar_to_string, BusType, DeviceInfo, OpenTarget, WcharString};
use hidapi::error::{HidError, MAX_REPORT_DESCRIPTOR_SIZE};
use hidapi::text::{
    chars_of, decimal_text, decode_utf16, decode_utf16_lossy, decode_wide, encode_utf16, hex_digit,
    hex_text, lower_code, parse_hex, parse_hex_i32, parse_hex_u16, string_of, upper_unit,
};

#[test]
fn texts_and_their_characters() {
    assert_eq!(vec!['a', '\u{e9}', '\u{1F600}'], chars_of("a\u{e9}\u{1F600}"));
    assert_eq!("a\u{e9}\u{1F600}", string_of(&['a', '\u{e9}', '\u{1F600}']));
    assert_eq!("", string_of(&[]));
    assert!(chars_of("").is_empty());
}

#[test]
fn hexadecimal_digits() {
    assert_eq!(Some(0), hex_digit('0' as u32));
    assert_eq!(Some(9), hex_digit('9' as u32));
    assert_eq!(Some(10), hex_digit('a' as u32));
    assert_eq!(Some(15), hex_digit('F' as u32));
    assert_eq!(None, hex_digit('g' as u32));
    assert_eq!(None, hex_digit(':' as u32));
    assert_eq!(None, hex_digit('/' as u32));
    assert_eq!(None, hex_digit('@' as u32));
    assert_eq!(None, hex_digit('`' as u32));
    assert_eq!(None, hex_digit(0xFF10));
}

#[test]
fn hexadecimal_numbers() {
    let chars = chars_of("x00ff:10000");
    assert_eq!(Some(0xff), parse_hex(&chars, 1, 5, 0xffff));
    assert_eq!(Some(0), parse_hex(&chars, 1, 3, 0xffff));
    assert_eq!(None, parse_hex(&chars, 1, 1, 0xffff));
    assert_eq!(None, parse_hex(&chars, 0, 5, 0xffff));
    assert_eq!(None, parse_hex(&chars, 6, 11, 0xffff));
    assert_eq!(Some(0x10000), parse_hex(&chars, 6, 11, 0x10000));
    let long = chars_of("00000000000000000000ffffffff");
    assert_eq!(Some(0xffff_ffff), parse_hex(&long, 0, long.len(), u32::MAX));
    let wide = chars_of("100000000");
    assert_eq!(None, parse_hex(&wide, 0, wide.len(), u32::MAX));

    assert_eq!(Some(0x7200), parse_hex_u16("7200"));
    assert_eq!(Some(0xffff), parse_hex_u16("+FFFF"));
    assert_eq!(None, parse_hex_u16("10000"));
    assert_eq!(None, parse_hex_u16("-1"));
    assert_eq!(None, parse_hex_u16(""));
    assert_eq!(None, parse_hex_u16("+"));
    assert_eq!(None, parse_hex_u16("0x10"));
    assert_eq!(Some(2), parse_hex_i32("02"));
    assert_eq!(Some(-1), parse_hex_i32("-1"));
    assert_eq!(Some(i32::MAX), parse_hex_i32("7fffffff"));
    assert_eq!(None, parse_hex_i32("80000000"));
    assert_eq!(Some(i32::MIN), parse_hex_i32("-80000000"));
    assert_eq!(None, parse_hex_i32("-80000001"));
    assert_eq!(None, parse_hex_i32("-"));
    assert_eq!(None, parse_hex_i32("1 "));
}

#[test]
fn utf16_texts() {
    assert_eq!(Some("Hi".to_string()), decode_utf16(&[0x48, 0x69]));
    assert_eq!(Some(String::new()), decode_utf16(&[]));
    assert_eq!(Some("\u{1F600}!".to_string()), decode_utf16(&[0xD83D, 0xDE00, 0x21]));
    assert_eq!(Some("\u{FFFF}".to_string()), decode_utf16(&[0xFFFF]));
    assert_eq!(None, decode_utf16(&[0x48, 0xD83D]));
    assert_eq!(None, decode_utf16(&[0xDE00, 0xD83D]));
    assert_eq!(None, decode_utf16(&[0xD83D, 0x48]));
    assert_eq!(vec![0x61, 0xD83D, 0xDE00], encode_utf16("a\u{1F600}"));
    assert_eq!(vec![0xD7FF, 0xE000, 0xDBFF, 0xDFFF], encode_utf16("\u{D7FF}\u{E000}\u{10FFFF}"));
    assert!(encode_utf16("").is_empty());
    assert_eq!(vec![0x41, 0xFFFD, 0x42], decode_utf16_lossy(&[0x41, 0xD800, 0x42]));
    assert_eq!(vec![0x1F600, 0xFFFD], decode_utf16_lossy(&[0xD83D, 0xDE00, 0xDC00]));
}

#[test]
fn wide_texts() {
    assert_eq!(Some("H\u{1F600}".to_string()), decode_wide(&[0x48, 0x1F600]));
    assert_eq!(None, decode_wide(&[0x48, 0xD800]));
    assert_eq!(None, decode_wide(&[0x110000]));
    assert_eq!(Some("\u{10FFFF}".to_string()), decode_wide(&[0x10FFFF]));
}

#[test]
fn numbers_as_text() {
    assert_eq!("0", decimal_text(0));
    assert_eq!("10", decimal_text(10));
    assert_eq!("18446744073709551615", decimal_text(u64::MAX));
    assert_eq!("0", hex_text(0));
    assert_eq!("D800", hex_text(0xD800));
    assert_eq!("FFFFFFFFFFFFFFFF", hex_text(u64::MAX));
    assert_eq!("1A", hex_text(26));
}

#[test]
fn letter_cases() {
    assert_eq!(0x41, upper_unit(0x61));
    assert_eq!(0x5A, upper_unit(0x7A));
    assert_eq!(0x60, upper_unit(0x60));
    assert_eq!(0x7B, upper_unit(0x7B));
    assert_eq!(0xE9, upper_unit(0xE9));
    assert_eq!(0x61, lower_code(0x41));
    assert_eq!(0x7A, lower_code(0x5A));
    assert_eq!(0x40, lower_code(0x40));
    assert_eq!(0x5B, lower_code(0x5B));
}

#[test]
fn strings_of_a_record() {
    let text = u16str_to_wstring(&[0x48, 0x69]);
    assert_eq!(Some("Hi"), text.as_str());
    assert!(text.as_raw().is_none());
    assert!(!text.is_blank());
    assert_eq!(Some("Hi".to_string()), text.into_string());

    let raw = u16str_to_wstring(&[0x48, 0xD800]);
    assert_eq!(None, raw.as_str());
    assert_eq!(Some(&[0x48u32, 0xD800][..]), raw.as_raw());
    assert!(raw.is_blank());
    assert_eq!(None, raw.into_string());

    assert!(matches!(wchar_to_string(None), WcharString::Absent));
    assert!(WcharString::Absent.is_blank());
    assert!(WcharString::String(String::new()).is_blank());
    assert_eq!(Some("ok"), wchar_to_string(Some(&[0x6F, 0x6B])).as_str());
    assert_eq!(
        Some(&[0x6Fu32, 0xDFFF][..]),
        wchar_to_string(Some(&[0x6F, 0xDFFF])).as_raw()
    );
    let copy = raw_copy();
    assert_eq!(Some(&[7u32][..]), copy.as_raw());
}

fn raw_copy() -> WcharString {
    let held = WcharString::Raw(vec![7]);
    held.clone()
}

fn record(path: &[u8], serial_number: WcharString) -> DeviceInfo {
    DeviceInfo {
        path: path.to_vec(),
        vendor_id: 0x04D9,
        product_id: 0xA052,
        serial_number,
        release_number: 0x0100,
        manufacturer_string: WcharString::String("Holtek".to_string()),
        product_string: WcharString::Raw(vec![0x55, 0xD800]),
        usage_page: 0xFF00,
        usage: 1,
        interface_number: -1,
        bus_type: BusType::Usb,
    }
}

#[test]
fn records_and_how_they_are_opened() {
    let info = record(b"/dev/hidraw3", WcharString::String("1.40".to_string()));
    assert_eq!(b"/dev/hidraw3", info.path());
    assert_eq!(Some("1.40"), info.serial_number());
    assert_eq!(None, info.serial_number_raw());
    assert_eq!(Some("Holtek"), info.manufacturer_string());
    assert_eq!(None, info.manufacturer_string_raw());
    assert_eq!(None, info.product_string());
    assert_eq!(Some(&[0x55u32, 0xD800][..]), info.product_string_raw());
    assert_eq!(0x0100, info.release_number());
    assert_eq!((0xFF00, 1), (info.usage_page(), info.usage()));
    assert!(matches!(info.open_target(), Some(OpenTarget::Path(path)) if path == b"/dev/hidraw3"));
    let copy = info.clone();
    assert_eq!(info.path(), copy.path());
    assert_eq!(info.serial_number(), copy.serial_number());
    assert_eq!(info.product_string_raw(), copy.product_string_raw());
    assert_eq!(info.bus_type(), copy.bus_type());

    let by_serial = record(b"", WcharString::String("1.40".to_string()));
    assert!(matches!(
        by_serial.open_target(),
        Some(OpenTarget::Serial { vendor_id: 0x04D9, product_id: 0xA052, serial_number })
            if serial_number == "1.40"
    ));
    assert!(record(b"", WcharString::Absent).open_target().is_none());
    assert!(record(b"", WcharString::Raw(vec![0x31])).open_target().is_none());
}

#[test]
fn what_errors_say() {
    assert_eq!(4096, MAX_REPORT_DESCRIPTOR_SIZE);
    assert_eq!(
        "hidapi error: no such device",
        HidError::HidApiError { message: "no such device".to_string() }.message()
    );
    assert_eq!(
        "hidapi error: (could not get error message)",
        HidError::HidApiErrorEmpty.message()
    );
    assert_eq!(
        "failed converting 0xD800 to rust char",
        HidError::FromWideCharError { wide_char: 0xD800 }.message()
    );
    assert_eq!("Failed to initialize hidapi", HidError::InitializationError.message());
    assert_eq!("Invalid data: size can not be 0", HidError::InvalidZeroSizeData.message());
    assert_eq!(
        "Failed to send all data: only sent 3 out of 64 bytes",
        HidError::IncompleteSendError { sent: 3, all: 64 }.message()
    );
    assert_eq!(
        "Can not set blocking mode to 'not blocking'",
        HidError::SetBlockingModeError { mode: HidError::blocking_mode_name(false) }.message()
    );
    assert_eq!("blocking", HidError::blocking_mode_name(true));
    assert_eq!(
        "Can not open hid device with: HidDeviceInfo { vendor_id: 1241, product_id: 41042 }",
        HidError::OpenHidDeviceWithDeviceInfoError {
            device_info: Box::new(record(b"", WcharString::Absent)),
        }
        .message()
    );
    assert_eq!("os error 25", HidError::IoError { os_error: 25 }.message());
    assert_eq!("os error -2147483648", HidError::IoError { os_error: i32::MIN }.message());
}
