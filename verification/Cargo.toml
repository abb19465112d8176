[package]
name = "reliability"
version = "0.1.0"
edition = "2021"
publish = false

[dependencies]
backtrace = "0.3"
chrono = "0.4"
cocoa = "0.25"
futures = "0.3"
human_bytes = "0.4"
log = "0.4"
nix = { version = "0.28", features = ["signal", "pthread"] }
parking_lot = "0.12"
serde = { version = "1", features = ["derive"] }
serde_json = "1"
sysinfo = "0.30"
windows = { version = "0.58", features = ["Wdk_System_SystemServices", "Win32_System_SystemInformation"] }
