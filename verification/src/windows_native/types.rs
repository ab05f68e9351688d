//! The buses as the Windows back end tells them apart.

use vstd::prelude::*;
use crate::device_info::BusType;
use crate::windows_native::error::{
    check_config,
    spec_config_to_error,
    WinError,
    CR_BUFFER_SMALL,
    CR_SUCCESS,
};

verus! {

/// The bus of a device, with Bluetooth Low Energy apart from Bluetooth: its
/// devices keep their strings elsewhere.
#[derive(Copy, Clone, Debug, PartialEq, Eq, Structural)]
pub enum InternalBusType {
    Unknown,
    Usb,
    Bluetooth,
    BluetoothLE,
    I2c,
    Spi,
}

impl InternalBusType {
    /// The bus as a device record names it.
    pub open spec fn spec_bus_type(self) -> BusType {
        match self {
            InternalBusType::Unknown => BusType::Unknown,
            InternalBusType::Usb => BusType::Usb,
            InternalBusType::Bluetooth => BusType::Bluetooth,
            InternalBusType::BluetoothLE => BusType::Bluetooth,
            InternalBusType::I2c => BusType::I2c,
            InternalBusType::Spi => BusType::Spi,
        }
    }

    /// The bus as a device record names it.
    pub fn bus_type(self) -> (bus: BusType)
        ensures
            bus == self.spec_bus_type(),
    {
        match self {
            InternalBusType::Unknown => BusType::Unknown,
            InternalBusType::Usb => BusType::Usb,
            InternalBusType::Bluetooth => BusType::Bluetooth,
            InternalBusType::BluetoothLE => BusType::Bluetooth,
            InternalBusType::I2c => BusType::I2c,
            InternalBusType::Spi => BusType::Spi,
        }
    }
}

/// The property type of a GUID.
pub const DEVPROP_TYPE_GUID: u32 = 13;

/// The property type of a string.
pub const DEVPROP_TYPE_STRING: u32 = 18;

/// The property type of a list of strings.
pub const DEVPROP_TYPE_STRING_LIST: u32 = 0x2012;

/// Number of bytes of a GUID.
pub const GUID_SIZE: usize = 16;

/// The kinds of value that are read from the properties of a device node
/// or of a device interface.
#[derive(Copy, Clone, Debug, PartialEq, Eq, Structural)]
pub enum DeviceProperty {
    /// A string of UTF-16 code units with its zero.
    Text,
    /// Strings of UTF-16 code units in one buffer, each with its zero.
    TextList,
    /// A GUID.
    Guid,
}

impl DeviceProperty {
    /// The property type that the configuration manager reports for a value
    /// of this kind.
    pub open spec fn spec_type_code(self) -> u32 {
        match self {
            DeviceProperty::Text => DEVPROP_TYPE_STRING,
            DeviceProperty::TextList => DEVPROP_TYPE_STRING_LIST,
            DeviceProperty::Guid => DEVPROP_TYPE_GUID,
        }
    }

    pub fn type_code(self) -> (code: u32)
        ensures
            code == self.spec_type_code(),
    {
        match self {
            DeviceProperty::Text => DEVPROP_TYPE_STRING,
            DeviceProperty::TextList => DEVPROP_TYPE_STRING_LIST,
            DeviceProperty::Guid => DEVPROP_TYPE_GUID,
        }
    }

    /// Whether a value of this kind can have `bytes` bytes: a GUID has 16,
    /// a string or a list of strings a whole number of code units.
    pub open spec fn spec_holds(self, bytes: usize) -> bool {
        match self {
            DeviceProperty::Guid => bytes == GUID_SIZE,
            _ => bytes % 2 == 0,
        }
    }

    pub fn holds(self, bytes: usize) -> (fits: bool)
        ensures
            fits == self.spec_holds(bytes),
    {
        match self {
            DeviceProperty::Guid => bytes == GUID_SIZE,
            _ => bytes % 2 == 0,
        }
    }
}

/// What the question for the size of a property has given. The
/// configuration manager answers it with `CR_BUFFER_SMALL`, the type of the
/// property and its size in bytes; any other return code is its error, and
/// a property of another type than the one asked for is refused.
pub open spec fn spec_property_size(
    ret: u32,
    property_type: u32,
    wanted: DeviceProperty,
    len: u32,
) -> Result<usize, WinError> {
    if ret != CR_BUFFER_SMALL {
        Err(spec_config_to_error(ret))
    } else if property_type != wanted.spec_type_code() {
        Err(WinError::WrongPropertyDataType)
    } else {
        Ok(len as usize)
    }
}

pub fn property_size(ret: u32, property_type: u32, wanted: DeviceProperty, len: u32) -> (size: Result<
    usize,
    WinError,
>)
    ensures
        size == spec_property_size(ret, property_type, wanted, len),
{
    match check_config(ret, CR_BUFFER_SMALL) {
        Err(error) => Err(error),
        Ok(()) => if property_type != wanted.type_code() {
            Err(WinError::WrongPropertyDataType)
        } else {
            Ok(len as usize)
        },
    }
}

/// What the reading of a property into a buffer of `size` bytes has given:
/// the error of the configuration manager where it did not succeed, and
/// `UnexpectedReturnSize` where it wrote another number of bytes than it
/// had announced.
pub open spec fn spec_property_read(ret: u32, size: usize, len: u32) -> Result<(), WinError> {
    if ret != CR_SUCCESS {
        Err(spec_config_to_error(ret))
    } else if size != len {
        Err(WinError::UnexpectedReturnSize)
    } else {
        Ok(())
    }
}

pub fn property_read(ret: u32, size: usize, len: u32) -> (read: Result<(), WinError>)
    ensures
        read == spec_property_read(ret, size, len),
{
    match check_config(ret, CR_SUCCESS) {
        Err(error) => Err(error),
        Ok(()) => if size != len as usize {
            Err(WinError::UnexpectedReturnSize)
        } else {
            Ok(())
        },
    }
}

} // verus!
