[package]
name = "uptimer"
version = "0.1.0"
edition = "2021"
publish = false

[dependencies]
windows = { version = "0.52", features = ["Win32_Foundation", "Win32_System_SystemInformation", "Win32_System_Threading", "Win32_System_Time"] }
