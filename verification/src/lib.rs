//! Discovery of and communication with USB and Bluetooth human interface
//! devices: the device records, the report-descriptor scanner, the
//! reconstruction of report descriptors from preparsed data, and the
//! decisions that the platform back ends take around their system calls.

pub mod context;
pub mod device_info;
pub mod error;
pub mod linux_native;
pub mod text;
pub mod windows_native;

pub use crate::context::HidApi;
pub use crate::device_info::{BusType, DeviceInfo, WcharString};
pub use crate::error::{HidError, HidResult, MAX_REPORT_DESCRIPTOR_SIZE};
