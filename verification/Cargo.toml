[package]
name = "hidapi"
version = "0.1.0"
edition = "2021"
publish = false

[dependencies]
bytemuck = "1"
cfg-if = "1"
libc = "0.2"
nix = { version = "0.27", default-features = false, features = ["fs", "ioctl", "poll"] }
udev = "0.8"
winapi = { version = "0.3", features = ["guiddef"] }
windows-sys = { version = "0.48", features = ["Win32_Devices_DeviceAndDriverInstallation", "Win32_Devices_HumanInterfaceDevice", "Win32_Devices_Properties", "Win32_Foundation", "Win32_Security", "Win32_Storage_EnhancedStorage", "Win32_Storage_FileSystem", "Win32_System_IO", "Win32_System_Threading", "Win32_UI_Shell_PropertiesSystem"] }
