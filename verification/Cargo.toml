[package]
name = "keyboard_windows"
version = "0.1.0"
edition = "2021"
publish = false

[dependencies]
base64 = "0.22"
image = { version = "0.25", default-features = false, features = ["bmp", "jpeg"] }
spin = "0.9"
log = "0.4"
env_logger = "0.11"
anyhow = "1"
tokio = { version = "1", features = ["rt-multi-thread"] }
windows = { version = "0.58", features = ["Win32_Foundation", "Win32_UI_Input_KeyboardAndMouse", "Win32_UI_WindowsAndMessaging"] }
clipboard-win = "5"
tray-icon = "0.19"
async-openai = "0.23"
