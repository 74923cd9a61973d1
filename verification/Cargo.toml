[package]
name = "meta_remap"
version = "0.1.0"
edition = "2021"
publish = false

[dependencies]
ctrlc = "3"
env_logger = "0.10"
log = "0.4"
once_cell = "1"
windows = { version = "0.52", features = ["Win32_Foundation", "Win32_UI_Input_KeyboardAndMouse", "Win32_UI_WindowsAndMessaging"] }
