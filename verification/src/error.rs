//! The errors of the library.

use vstd::prelude::*;
use vstd::string::StringExecFns;
use crate::device_info::{DeviceInfo, WcharString, WcharText};
use crate::text::{decimal_text, hex_text, spec_decimal_digits, spec_hex_digits};

verus! {

/// What can go wrong when a device is opened or talked to.
#[derive(Debug)]
pub enum HidError {
    /// An error that comes with a message.
    HidApiError { message: String },
    /// An error whose message could not be had.
    HidApiErrorEmpty,
    /// A wide character that is no character.
    FromWideCharError { wide_char: u32 },
    InitializationError,
    /// Data without a byte: a report starts with the byte of its id.
    InvalidZeroSizeData,
    /// The operating system took fewer bytes of a report than were handed
    /// to it.
    IncompleteSendError { sent: usize, all: usize },
    SetBlockingModeError { mode: &'static str },
    /// A record with neither a path nor a serial number.
    OpenHidDeviceWithDeviceInfoError { device_info: Box<DeviceInfo> },
    /// An error of the operating system, by its code.
    IoError { os_error: i32 },
}

/// The result of an operation of the library.
pub type HidResult<T> = Result<T, HidError>;

/// The longest report descriptor that a device can have, in bytes.
pub const MAX_REPORT_DESCRIPTOR_SIZE: usize = 4096;

/// What an error says of itself.
pub open spec fn spec_message(error: HidError) -> Seq<char> {
    match error {
        HidError::HidApiError { message } => "hidapi error: "@ + message@,
        HidError::HidApiErrorEmpty => "hidapi error: (could not get error message)"@,
        HidError::FromWideCharError { wide_char } => "failed converting 0x"@ + spec_hex_digits(
            wide_char as nat,
        ) + " to rust char"@,
        HidError::InitializationError => "Failed to initialize hidapi"@,
        HidError::InvalidZeroSizeData => "Invalid data: size can not be 0"@,
        HidError::IncompleteSendError { sent, all } => "Failed to send all data: only sent "@
            + spec_decimal_digits(sent as nat) + " out of "@ + spec_decimal_digits(all as nat)
            + " bytes"@,
        HidError::SetBlockingModeError { mode } => "Can not set blocking mode to '"@ + mode@ + "'"@,
        HidError::OpenHidDeviceWithDeviceInfoError { device_info } =>
            "Can not open hid device with: HidDeviceInfo { vendor_id: "@ + spec_decimal_digits(
            device_info.vendor_id as nat,
        ) + ", product_id: "@ + spec_decimal_digits(device_info.product_id as nat) + " }"@,
        HidError::IoError { os_error } => if os_error >= 0 {
            "os error "@ + spec_decimal_digits(os_error as nat)
        } else {
            "os error -"@ + spec_decimal_digits((-os_error) as nat)
        },
    }
}

impl HidError {
    /// What the error says of itself: see [`spec_message`].
    pub fn message(&self) -> (text: String)
        ensures
            text@ == spec_message(*self),
    {
        match self {
            HidError::HidApiError { message } => {
                let mut text = String::from_str("hidapi error: ");
                text.append(message.as_str());
                text
            },
            HidError::HidApiErrorEmpty => String::from_str(
                "hidapi error: (could not get error message)",
            ),
            HidError::FromWideCharError { wide_char } => {
                let mut text = String::from_str("failed converting 0x");
                text.append(hex_text(*wide_char as u64).as_str());
                text.append(" to rust char");
                text
            },
            HidError::InitializationError => String::from_str("Failed to initialize hidapi"),
            HidError::InvalidZeroSizeData => String::from_str("Invalid data: size can not be 0"),
            HidError::IncompleteSendError { sent, all } => {
                let mut text = String::from_str("Failed to send all data: only sent ");
                text.append(decimal_text(*sent as u64).as_str());
                text.append(" out of ");
                text.append(decimal_text(*all as u64).as_str());
                text.append(" bytes");
                text
            },
            HidError::SetBlockingModeError { mode } => {
                let mut text = String::from_str("Can not set blocking mode to '");
                text.append(mode);
                text.append("'");
                text
            },
            HidError::OpenHidDeviceWithDeviceInfoError { device_info } => {
                let mut text = String::from_str(
                    "Can not open hid device with: HidDeviceInfo { vendor_id: ",
                );
                text.append(decimal_text(device_info.vendor_id as u64).as_str());
                text.append(", product_id: ");
                text.append(decimal_text(device_info.product_id as u64).as_str());
                text.append(" }");
                text
            },
            HidError::IoError { os_error } => {
                if *os_error >= 0 {
                    let mut text = String::from_str("os error ");
                    text.append(decimal_text(*os_error as u64).as_str());
                    text
                } else {
                    let mut text = String::from_str("os error -");
                    text.append(decimal_text((0 - *os_error as i64) as u64).as_str());
                    text
                }
            },
        }
    }

    /// The error of a call that failed, from the text in which the
    /// underlying library describes its last error: an error with that
    /// text, or one that says that there is none where the text is missing
    /// or cannot be read.
    pub fn check_error(message: WcharString) -> (error: HidError)
        ensures
            match message@ {
                WcharText::String(text) => error is HidApiError && error->HidApiError_message@
                    == text,
                _ => error is HidApiErrorEmpty,
            },
    {
        match message {
            WcharString::String(text) => HidError::HidApiError { message: text },
            _ => HidError::HidApiErrorEmpty,
        }
    }

    /// The name of a blocking mode in the error that says that it could not
    /// be set.
    pub fn blocking_mode_name(blocking: bool) -> (name: &'static str)
        ensures
            name@ == (if blocking {
                "blocking"@
            } else {
                "not blocking"@
            }),
    {
        if blocking {
            "blocking"
        } else {
            "not blocking"
        }
    }
}

/// Refuses data without a byte before anything is done with it: a report
/// starts with the byte of its id.
pub fn check_report_data(data: &[u8]) -> (result: Result<(), HidError>)
    ensures
        data@.len() == 0 <==> result is Err,
        result is Err ==> result->Err_0 is InvalidZeroSizeData,
{
    if data.len() == 0 {
        Err(HidError::InvalidZeroSizeData)
    } else {
        Ok(())
    }
}

/// The error of a back end that cannot read strings by their index.
pub fn indexed_string_not_supported() -> (error: HidError)
    ensures
        error is HidApiError,
        error->HidApiError_message@ == "get_indexed_string: not supported"@,
{
    HidError::HidApiError { message: String::from_str("get_indexed_string: not supported") }
}

/// The number of bytes that a call reports which returns -1 for a failure:
/// none for -1, and the number read as an unsigned one for any other
/// value.
pub open spec fn spec_check_size(res: i32) -> Option<usize> {
    if res == -1 {
        None
    } else if res >= 0 {
        Some(res as usize)
    } else {
        Some((usize::MAX + 1 + res) as usize)
    }
}

/// Tells the failure of a call from the size that it returns: see
/// [`spec_check_size`]. The error of a failed call is made by
/// [`HidError::check_error`].
pub fn check_size(res: i32) -> (size: Option<usize>)
    ensures
        size == spec_check_size(res),
{
    if res == -1 {
        None
    } else if res >= 0 {
        Some(res as usize)
    } else {
        let below: u32 = (-(res as i64) - 1) as u32;
        Some(usize::MAX - below as usize)
    }
}

} // verus!
