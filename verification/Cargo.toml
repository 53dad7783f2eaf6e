[package]
name = "kse_launcher"
version = "0.1.0"
edition = "2021"
publish = false

[dependencies]
libloading = "*"
winapi = { version = "0.3", features = ["winuser", "minwindef", "winnt"] }
