[package]
name = "witer"
version = "0.1.0"
edition = "2021"
publish = false

[dependencies]
cursor-icon = "1"
windows = { version = "0.56", features = ["Win32_Foundation", "Win32_Graphics_Gdi", "Win32_Graphics_Dwm", "Win32_System_LibraryLoader", "Win32_System_SystemInformation", "Win32_System_SystemServices", "Win32_UI_WindowsAndMessaging", "Win32_UI_HiDpi", "Win32_UI_Input", "Win32_UI_Input_KeyboardAndMouse", "Win32_UI_Controls", "UI", "UI_ViewManagement"] }
thiserror = "1"
tracing = "0.1"
raw-window-handle = "0.6"
enumflags2 = "0.7"
strum = { version = "0.26", features = ["derive"] }
