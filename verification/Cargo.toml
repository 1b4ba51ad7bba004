[package]
name = "windows_app_bar"
version = "0.1.0"
edition = "2021"
publish = false

[dependencies]
log = "=0.4.35"
raw-window-handle = "=0.6.2"
thiserror = "=2.0.21"
windows = { version = "=0.60.0", features = ["Win32_Foundation", "Win32_Graphics_Gdi", "Win32_System_LibraryLoader", "Win32_UI_Shell", "Win32_UI_WindowsAndMessaging"] }
windows-result = "0.3"
