[package]
name = "sound_inactive"
version = "0.1.0"
edition = "2021"
publish = false

[dependencies]
windows = { version = "0.58", features = [
    "Win32_Foundation",
    "Win32_Media_Audio",
    "Win32_System_Com",
    "Win32_System_SystemInformation",
    "Win32_UI_Input_KeyboardAndMouse",
] }
