[package]
name = "windows_awake"
version = "0.1.0"
edition = "2021"

[dependencies]
thiserror = "=2.0.21"
windows = { version = "=0.59.0", features = ["Win32_Foundation", "Win32_System_Power"] }
