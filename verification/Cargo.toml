[package]
name = "spoolctl"
version = "0.2.0"
edition = "2021"
publish = false

[dependencies]
windows = { version = "=0.61.3", features = ["Win32_Foundation", "Win32_Security", "Win32_Graphics_Gdi", "Win32_Graphics_Printing", "Win32_Storage_Xps", "Win32_System_Console", "Win32_System_Diagnostics_Debug", "Win32_System_LibraryLoader", "Win32_System_Registry", "Win32_System_Services", "Win32_System_SystemInformation", "Win32_System_Threading", "Win32_UI_Shell", "Win32_UI_WindowsAndMessaging"] }
eframe = { version = "=0.37.0", default-features = false, features = ["default_fonts", "glow", "wgpu", "x11"] }
windows-core = "0.61"
raw-window-handle = "0.6"
