[package]
name = "tap_windows"
version = "0.1.0"
edition = "2021"
publish = false

[dependencies]
scopeguard = "*"
winreg = "*"

[dependencies.windows]
version = "0.52"
features = [
    "Win32_Devices_DeviceAndDriverInstallation",
    "Win32_Foundation",
    "Win32_NetworkManagement_IpHelper",
    "Win32_NetworkManagement_Ndis",
    "Win32_Security",
    "Win32_Storage_FileSystem",
    "Win32_System_Com",
    "Win32_System_IO",
    "Win32_System_Ioctl",
    "Win32_System_Registry",
    "Win32_System_Threading",
]
