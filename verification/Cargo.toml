[package]
name = "plinth"
version = "0.1.0"
edition = "2021"
publish = false

[dependencies]
arrayvec = "0.7"
const-fnv1a-hash = "*"
parking_lot = "0.12"
windows = { version = "0.56", features = ["Win32_Foundation", "Win32_System_Performance", "Win32_UI_Input_KeyboardAndMouse", "Win32_UI_WindowsAndMessaging"] }
