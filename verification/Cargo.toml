[package]
name = "udk_shim"
version = "0.1.0"
edition = "2021"
publish = false

[dependencies]
sha2 = "=0.10.9"
pelite = "=0.10.0"
dataview = { version = "=1.1.0", default-features = false }
widestring = "=1.2.1"
windows = { version = "=0.48.0", features = ["implement", "Win32_Foundation", "Win32_Devices_HumanInterfaceDevice", "Win32_Media_Audio", "Win32_Media_Audio_XAudio2", "Win32_System_Com", "Win32_System_Diagnostics_Debug", "Win32_System_LibraryLoader", "Win32_System_ProcessStatus", "Win32_System_SystemInformation", "Win32_System_SystemServices", "Win32_System_Threading"] }
detour = { version = "=0.8.1", default-features = false }
region = "=3.0.2"
libloading = "=0.8.9"
anyhow = "=1.0.104"
