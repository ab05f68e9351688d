use hidapi::context::{ContextState, InitState};
use hidapi::device_info::{BusType, DeviceInfo, WcharString};
use hidapi::error::{check_report_data, check_size, indexed_string_not_supported, HidError};
use hidapi::linux_native::{
    descriptor_size_error, disconnected_error, feature_error, no_device_info_error,
    not_found_error, open_error,
};
use hidapi::windows_native::descriptor::typedefs::HidpPreparsedData;
use hidapi::windows_native::error::{Win32Error, WinError};
use hidapi::windows_native::hid::{caps_read, loaded, PreparsedData, HIDP_STATUS_SUCCESS};
use hidapi::HidApi;

#[test]
fn the_state_of_a_process() {
    let mut state = ContextState::new();
    assert!(state.device_discovery);
    assert_eq!(InitState::NotInit, state.init_state);
    assert!(state.needs_init());
    assert!(state.can_disable_discovery());

    // A failed initialisation leaves everything as it was.
    assert!(matches!(state.after_init(-1), Err(HidError::InitializationError)));
    assert_eq!(ContextState::new(), state);

    assert!(state.after_init(0).is_ok());
    assert!(!state.needs_init());
    assert!(state.device_discovery);
    assert!(!state.can_disable_discovery());
}

#[test]
fn discovery_is_switched_off_before_the_start_only() {
    let mut state = ContextState::new();
    state.disable_device_discovery();
    assert!(!state.device_discovery);
    assert!(state.needs_init());
    assert!(state.after_init(1).is_ok());
    assert_eq!(
        ContextState { device_discovery: false, init_state: InitState::Init },
        state
    );
    // Without discovery it can be switched off again, to no effect.
    assert!(state.can_disable_discovery());
    state.disable_device_discovery();
    assert_eq!(
        ContextState { device_discovery: false, init_state: InitState::Init },
        state
    );
}

fn record(path: &[u8], product_id: u16) -> DeviceInfo {
    DeviceInfo {
        path: path.to_vec(),
        vendor_id: 0x046D,
        product_id,
        serial_number: WcharString::Absent,
        release_number: 0,
        manufacturer_string: WcharString::Absent,
        product_string: WcharString::Absent,
        usage_page: 0,
        usage: 0,
        interface_number: -1,
        bus_type: BusType::Usb,
    }
}

fn paths(api: &HidApi) -> Vec<Vec<u8>> {
    api.device_list().iter().map(|info| info.path().to_vec()).collect()
}

#[test]
fn the_list_of_devices() {
    let mut api = HidApi::new(vec![record(b"a", 1)]);
    assert_eq!(vec![b"a".to_vec()], paths(&api));
    api.add_devices(vec![record(b"b", 2), record(b"a", 1)]);
    assert_eq!(vec![b"a".to_vec(), b"b".to_vec(), b"a".to_vec()], paths(&api));
    api.add_devices(Vec::new());
    assert_eq!(3, api.device_list().len());
    api.refresh_devices(vec![record(b"c", 3)]);
    assert_eq!(vec![b"c".to_vec()], paths(&api));
    assert_eq!(3, api.device_list()[0].product_id());
    api.reset_devices();
    assert!(api.device_list().is_empty());
    assert!(HidApi::new(Vec::new()).device_list().is_empty());
}

#[test]
fn sizes_and_errors_of_calls() {
    assert_eq!(None, check_size(-1));
    assert_eq!(Some(0), check_size(0));
    assert_eq!(Some(64), check_size(64));
    assert_eq!(Some(i32::MAX as usize), check_size(i32::MAX));
    assert_eq!(Some(usize::MAX - 1), check_size(-2));
    assert_eq!(Some(usize::MAX - 0x7FFF_FFFF), check_size(i32::MIN));

    let error = HidError::check_error(WcharString::String("No such device".to_string()));
    assert_eq!("hidapi error: No such device", error.message());
    assert!(matches!(HidError::check_error(WcharString::Absent), HidError::HidApiErrorEmpty));
    assert!(matches!(
        HidError::check_error(WcharString::Raw(vec![0x41])),
        HidError::HidApiErrorEmpty
    ));
    assert!(check_report_data(&[1]).is_ok());
    assert!(matches!(check_report_data(&[]), Err(HidError::InvalidZeroSizeData)));
    assert_eq!(
        "hidapi error: get_indexed_string: not supported",
        indexed_string_not_supported().message()
    );
}

#[test]
fn a_node_that_is_no_hidraw_node() {
    let error = descriptor_size_error("/dev/null", "ENOTTY: Not a typewriter");
    let message = error.message();
    assert_eq!(
        "hidapi error: ioctl(GRDESCSIZE) error for /dev/null, not a HIDRAW device?: ENOTTY: Not \
         a typewriter",
        message
    );
    assert!(message.contains("ioctl(GRDESCSIZE)"));
}

#[test]
fn errors_of_the_hidraw_calls() {
    assert_eq!(
        "hidapi error: failed to open device with path /dev/hidraw9: No such file or directory \
         (os error 2)",
        open_error("/dev/hidraw9", "No such file or directory (os error 2)").message()
    );
    assert_eq!(
        "hidapi error: ioctl (GFEATURE): EPIPE: Broken pipe",
        feature_error("EPIPE: Broken pipe").message()
    );
    assert_eq!(
        "hidapi error: unexpected poll error (device disconnected)",
        disconnected_error().message()
    );
    assert_eq!("hidapi error: device not found", not_found_error().message());
    assert_eq!(
        "hidapi error: failed to create device info",
        no_device_info_error().message()
    );
    assert_eq!(
        "hidapi error: failed to open device with path : ",
        open_error("", "").message()
    );
}

#[test]
fn preparsed_data_of_the_hid_stack() {
    assert_eq!(0x0011_0000, HIDP_STATUS_SUCCESS);
    assert_eq!(Ok(0x7F00), loaded(1, 0, 0x7F00));
    assert_eq!(Ok(-8), loaded(255, 5, -8));
    assert_eq!(Err(WinError::InvalidPreparsedData), loaded(1, 0, 0));
    assert_eq!(Err(WinError::Win32(Win32Error::Generic(6))), loaded(0, 6, 0x7F00));
    assert_eq!(Err(WinError::Win32(Win32Error::Success)), loaded(0, 0, 0));
    assert_eq!(Ok(()), caps_read(HIDP_STATUS_SUCCESS));
    assert_eq!(Err(WinError::InvalidPreparsedData), caps_read(0));
    assert_eq!(Err(WinError::InvalidPreparsedData), caps_read(-1072627711));

    let block = PreparsedData::from_bytes(vec![1, 2, 3]);
    assert_eq!(&[1, 2, 3], block.as_bytes());
}

#[test]
fn the_length_of_a_block() {
    let mut header = b"HidP KDR".to_vec();
    header.extend_from_slice(&[2, 0, 1, 0, 0, 0, 0, 0]);
    // Two input fields, one output field, no feature field.
    header.extend_from_slice(&[0, 0, 2, 0, 2, 0, 4, 0]);
    header.extend_from_slice(&[2, 0, 1, 0, 3, 0, 2, 0]);
    header.extend_from_slice(&[3, 0, 0, 0, 3, 0, 0, 0]);
    // The nodes stand behind the three fields: two of them.
    header.extend_from_slice(&[0x38, 0x01, 2, 0]);
    let record = HidpPreparsedData::from_bytes(&header);
    assert_eq!(3, record.caps_len());
    assert_eq!(44 + 3 * 104 + 2 * 16, record.block_len());
    // A header whose nodes would start inside the fields: the fields count.
    header[40] = 0;
    header[41] = 0;
    let record = HidpPreparsedData::from_bytes(&header);
    assert_eq!(44 + 3 * 104, record.block_len());
}
