[package]
name = "restore_windows"
version = "0.1.0"
edition = "2021"
publish = false

[dependencies]
bevy = { version = "=0.17.3", default-features = false, features = ["std", "bevy_log", "bevy_window", "bevy_winit", "x11"] }
dirs = "=6.0.0"
raw-window-handle = "=0.6.2"
ron = "=0.12.2"
serde = { version = "=1.0.229", features = ["derive"] }
windows = { version = "=0.59.0", features = ["Win32_Foundation", "Win32_UI_Shell", "Win32_UI_WindowsAndMessaging"] }
x11rb = { version = "=0.13.2", features = ["allow-unsafe-code"] }
