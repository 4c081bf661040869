[package]
name = "tray_item"
version = "0.1.0"
edition = "2021"
publish = false

[dependencies]
bitflags = "*"
padlock = "*"
windows-sys = { version = "*", features = ["Win32_Foundation", "Win32_UI_Shell", "Win32_UI_WindowsAndMessaging", "Win32_System_LibraryLoader", "Win32_Graphics_Gdi"] }
