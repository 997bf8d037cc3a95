[package]
name = "easyfps"
version = "0.1.0"
edition = "2021"
publish = false

[dependencies]
ctrlc = "3"
dirs = "5"
once_cell = "1"
parking_lot = "0.12"
serde = { version = "1", features = ["derive"] }
serde_json = "1"
tray-icon = "*"
windows = { version = "0.52", features = ["Win32_Foundation", "Win32_Graphics_Gdi", "Win32_Graphics_Dwm", "Win32_UI_WindowsAndMessaging", "Win32_UI_Controls", "Win32_UI_Input_KeyboardAndMouse", "Win32_System_Performance", "Win32_System_ProcessStatus", "Win32_System_Threading"] }
