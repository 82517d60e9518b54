[package]
name = "cuty_window"
version = "0.1.0"
edition = "2021"
publish = false

[dependencies]
image = { version = "0.25", default-features = false, features = ["png"] }
winit = "0.30"
device_query = "*"
rand = "0.10"
winapi = { version = "0.3", features = ["minwindef", "windef", "dwmapi", "winuser", "libloaderapi", "winnt"] }
