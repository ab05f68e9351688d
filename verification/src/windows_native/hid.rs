//! The preparsed data of a device, as the HID stack hands it out.

use vstd::prelude::*;
use crate::windows_native::error::{check_boolean, Win32Error, WinError};

verus! {

/// The status with which the HID parser reports success.
pub const HIDP_STATUS_SUCCESS: i32 = 0x0011_0000;

/// What the question for the preparsed data of a device has given: the
/// handle of the data, the error of the call where it failed, and
/// `InvalidPreparsedData` where it succeeded and gave no data.
pub open spec fn spec_loaded(ret: u8, last_error: u32, handle: isize) -> Result<isize, WinError> {
    if ret == 0 {
        Err(WinError::spec_from_win32(Win32Error::spec_from_code(last_error)))
    } else if handle == 0 {
        Err(WinError::InvalidPreparsedData)
    } else {
        Ok(handle)
    }
}

pub fn loaded(ret: u8, last_error: u32, handle: isize) -> (result: Result<isize, WinError>)
    ensures
        result == spec_loaded(ret, last_error, handle),
{
    match check_boolean(ret, last_error) {
        Err(error) => Err(error),
        Ok(()) => if handle == 0 {
            Err(WinError::InvalidPreparsedData)
        } else {
            Ok(handle)
        },
    }
}

/// What the question for the capabilities of a device has given: any
/// status but success says that the preparsed data is not valid.
pub fn caps_read(status: i32) -> (result: Result<(), WinError>)
    ensures
        status == HIDP_STATUS_SUCCESS ==> result is Ok,
        status != HIDP_STATUS_SUCCESS ==> result == Err::<(), WinError>(
            WinError::InvalidPreparsedData,
        ),
{
    if status == HIDP_STATUS_SUCCESS {
        Ok(())
    } else {
        Err(WinError::InvalidPreparsedData)
    }
}

/// A block of preparsed data: the bytes that the HID stack made from the
/// report descriptor of a device.
pub struct PreparsedData {
    bytes: Vec<u8>,
}

impl View for PreparsedData {
    type V = Seq<u8>;

    closed spec fn view(&self) -> Seq<u8> {
        self.bytes@
    }
}

impl PreparsedData {
    /// Takes over a copy of the block.
    pub fn from_bytes(bytes: Vec<u8>) -> (pp_data: PreparsedData)
        ensures
            pp_data@ == bytes@,
    {
        PreparsedData { bytes }
    }

    /// The bytes of the block.
    pub fn as_bytes(&self) -> (bytes: &[u8])
        ensures
            bytes@ == self@,
    {
        self.bytes.as_slice()
    }
}

} // verus!
