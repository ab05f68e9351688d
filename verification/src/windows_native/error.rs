//! The errors of the Windows back end.

use vstd::prelude::*;
use vstd::string::StringExecFns;
use crate::error::HidError;
use crate::text::{decimal_text, spec_decimal_digits};

verus! {

/// An error code of the Win32 API, with the codes that the back end reacts
/// to told apart.
#[derive(Copy, Clone, Debug, PartialEq, Eq, Structural)]
pub enum Win32Error {
    Generic(u32),
    Success,
    IoPending,
    WaitTimedOut,
}

/// What can go wrong in the Windows back end.
#[derive(Copy, Clone, Debug, PartialEq, Eq, Structural)]
pub enum WinError {
    /// A return code of the configuration manager that has no variant of
    /// its own.
    Config(u32),
    Win32(Win32Error),
    BufferTooSmall,
    InvalidDeviceId,
    InvalidDeviceNode,
    NoSuchValue,
    WrongPropertyDataType,
    UnexpectedReturnSize,
    InvalidPreparsedData,
    WaitTimedOut,
}

/// The error codes of the Win32 API that the back end reacts to.
pub const NO_ERROR: u32 = 0;

pub const ERROR_ACCESS_DENIED: u32 = 5;

pub const WAIT_TIMEOUT: u32 = 258;

pub const ERROR_IO_INCOMPLETE: u32 = 996;

pub const ERROR_IO_PENDING: u32 = 997;

/// The return codes of the configuration manager that have an error of
/// their own.
pub const CR_SUCCESS: u32 = 0;

pub const CR_INVALID_DEVNODE: u32 = 5;

pub const CR_BUFFER_SMALL: u32 = 26;

pub const CR_INVALID_DEVICE_ID: u32 = 30;

pub const CR_NO_SUCH_VALUE: u32 = 37;

impl Win32Error {
    /// The error with a code of the Win32 API.
    pub open spec fn spec_from_code(code: u32) -> Win32Error {
        if code == NO_ERROR {
            Win32Error::Success
        } else if code == ERROR_IO_PENDING {
            Win32Error::IoPending
        } else if code == ERROR_IO_INCOMPLETE || code == WAIT_TIMEOUT {
            Win32Error::WaitTimedOut
        } else {
            Win32Error::Generic(code)
        }
    }

    /// Tells the codes apart that the back end reacts to: success, a
    /// transfer that goes on, and a wait that timed out, which a transfer
    /// that is not complete counts as.
    pub fn from_code(code: u32) -> (error: Win32Error)
        ensures
            error == Self::spec_from_code(code),
    {
        if code == NO_ERROR {
            Win32Error::Success
        } else if code == ERROR_IO_PENDING {
            Win32Error::IoPending
        } else if code == ERROR_IO_INCOMPLETE || code == WAIT_TIMEOUT {
            Win32Error::WaitTimedOut
        } else {
            Win32Error::Generic(code)
        }
    }
}

impl WinError {
    /// The error of the back end for an error of the Win32 API.
    pub open spec fn spec_from_win32(value: Win32Error) -> WinError {
        match value {
            Win32Error::WaitTimedOut => WinError::WaitTimedOut,
            other => WinError::Win32(other),
        }
    }
}

impl From<Win32Error> for WinError {
    fn from(value: Win32Error) -> (error: WinError) {
        match value {
            Win32Error::WaitTimedOut => WinError::WaitTimedOut,
            other => WinError::Win32(other),
        }
    }
}

impl vstd::std_specs::convert::FromSpecImpl<Win32Error> for WinError {
    open spec fn obeys_from_spec() -> bool {
        true
    }

    open spec fn from_spec(value: Win32Error) -> WinError {
        WinError::spec_from_win32(value)
    }
}

/// The error for a return code of the configuration manager.
pub open spec fn spec_config_to_error(ret: u32) -> WinError {
    if ret == CR_BUFFER_SMALL {
        WinError::BufferTooSmall
    } else if ret == CR_INVALID_DEVICE_ID {
        WinError::InvalidDeviceId
    } else if ret == CR_INVALID_DEVNODE {
        WinError::InvalidDeviceNode
    } else if ret == CR_NO_SUCH_VALUE {
        WinError::NoSuchValue
    } else {
        WinError::Config(ret)
    }
}

pub fn config_to_error(ret: u32) -> (error: WinError)
    ensures
        error == spec_config_to_error(ret),
{
    if ret == CR_BUFFER_SMALL {
        WinError::BufferTooSmall
    } else if ret == CR_INVALID_DEVICE_ID {
        WinError::InvalidDeviceId
    } else if ret == CR_INVALID_DEVNODE {
        WinError::InvalidDeviceNode
    } else if ret == CR_NO_SUCH_VALUE {
        WinError::NoSuchValue
    } else {
        WinError::Config(ret)
    }
}

/// Checks a return code of the configuration manager against the one that
/// is expected.
pub fn check_config(ret: u32, expected: u32) -> (result: Result<(), WinError>)
    ensures
        ret == expected ==> result is Ok,
        ret != expected ==> result == Err::<(), WinError>(spec_config_to_error(ret)),
{
    if ret == expected {
        Ok(())
    } else {
        Err(config_to_error(ret))
    }
}

/// Checks the truth value that a call of the Win32 API returned: where it
/// is false, the call failed with the last error of the thread.
pub fn check_boolean(ret: u8, last_error: u32) -> (result: Result<(), WinError>)
    ensures
        ret != 0 ==> result is Ok,
        ret == 0 ==> result == Err::<(), WinError>(
            WinError::spec_from_win32(Win32Error::spec_from_code(last_error)),
        ),
{
    if ret == 0 {
        Err(WinError::from(Win32Error::from_code(last_error)))
    } else {
        Ok(())
    }
}

/// The name of an error of the Win32 API.
pub open spec fn spec_win32_error_text(value: Win32Error) -> Seq<char> {
    match value {
        Win32Error::Generic(code) => "Generic("@ + spec_decimal_digits(code as nat) + ")"@,
        Win32Error::Success => "Success"@,
        Win32Error::IoPending => "IoPending"@,
        Win32Error::WaitTimedOut => "WaitTimedOut"@,
    }
}

/// The name of an error of the back end.
pub open spec fn spec_win_error_text(value: WinError) -> Seq<char> {
    match value {
        WinError::Config(ret) => "Config("@ + spec_decimal_digits(ret as nat) + ")"@,
        WinError::Win32(error) => "Win32("@ + spec_win32_error_text(error) + ")"@,
        WinError::BufferTooSmall => "BufferTooSmall"@,
        WinError::InvalidDeviceId => "InvalidDeviceId"@,
        WinError::InvalidDeviceNode => "InvalidDeviceNode"@,
        WinError::NoSuchValue => "NoSuchValue"@,
        WinError::WrongPropertyDataType => "WrongPropertyDataType"@,
        WinError::UnexpectedReturnSize => "UnexpectedReturnSize"@,
        WinError::InvalidPreparsedData => "InvalidPreparsedData"@,
        WinError::WaitTimedOut => "WaitTimedOut"@,
    }
}

fn wrapped(before: &str, inner: &str) -> (text: String)
    ensures
        text@ == before@ + inner@ + ")"@,
{
    let mut text = String::from_str(before);
    text.append(inner);
    text.append(")");
    text
}

fn win32_error_text(value: Win32Error) -> (text: String)
    ensures
        text@ == spec_win32_error_text(value),
{
    match value {
        Win32Error::Generic(code) => wrapped("Generic(", decimal_text(code as u64).as_str()),
        Win32Error::Success => String::from_str("Success"),
        Win32Error::IoPending => String::from_str("IoPending"),
        Win32Error::WaitTimedOut => String::from_str("WaitTimedOut"),
    }
}

/// Names an error of the back end.
pub fn win_error_text(value: WinError) -> (text: String)
    ensures
        text@ == spec_win_error_text(value),
{
    match value {
        WinError::Config(ret) => wrapped("Config(", decimal_text(ret as u64).as_str()),
        WinError::Win32(error) => wrapped("Win32(", win32_error_text(error).as_str()),
        WinError::BufferTooSmall => String::from_str("BufferTooSmall"),
        WinError::InvalidDeviceId => String::from_str("InvalidDeviceId"),
        WinError::InvalidDeviceNode => String::from_str("InvalidDeviceNode"),
        WinError::NoSuchValue => String::from_str("NoSuchValue"),
        WinError::WrongPropertyDataType => String::from_str("WrongPropertyDataType"),
        WinError::UnexpectedReturnSize => String::from_str("UnexpectedReturnSize"),
        WinError::InvalidPreparsedData => String::from_str("InvalidPreparsedData"),
        WinError::WaitTimedOut => String::from_str("WaitTimedOut"),
    }
}

/// The code of the Win32 API as an error code of the operating system: the
/// same 32 bits, read as a signed number.
pub open spec fn spec_os_error(code: u32) -> i32 {
    if code < 0x8000_0000 {
        code as i32
    } else {
        (code - 0x1_0000_0000) as i32
    }
}

/// Whether `error` is the error of the library for an error of the back
/// end: an error of the operating system keeps its code, every other error
/// becomes an error with the message `WinError: ` and its name.
pub open spec fn spec_is_hid_error_of(error: HidError, value: WinError) -> bool {
    match value {
        WinError::Win32(Win32Error::Generic(code)) => error == (HidError::IoError {
            os_error: spec_os_error(code),
        }),
        _ => error is HidApiError && error->HidApiError_message@ == "WinError: "@
            + spec_win_error_text(value),
    }
}

/// Makes the error of the library for an error of the back end: see
/// [`spec_is_hid_error_of`].
pub fn hid_error_from(value: WinError) -> (error: HidError)
    ensures
        spec_is_hid_error_of(error, value),
{
    match value {
        WinError::Win32(Win32Error::Generic(code)) => HidError::IoError {
            os_error: if code < 0x8000_0000 {
                code as i32
            } else {
                (code as i64 - 0x1_0000_0000) as i32
            },
        },
        other => {
            let mut message = String::from_str("WinError: ");
            message.append(win_error_text(other).as_str());
            HidError::HidApiError { message }
        },
    }
}

} // verus!
