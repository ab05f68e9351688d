//! The back end that talks to the Win32 HID interfaces.

pub mod descriptor;
pub mod dev_node;
pub mod interfaces;
pub mod error;
pub mod hid;
pub mod string;
pub mod types;
pub mod device_info;
pub mod io;
