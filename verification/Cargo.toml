[package]
name = "clipkeeper"
version = "0.1.0"
edition = "2021"
publish = false

[dependencies]
anyhow = "1"
base64 = "0.22"
dirs = "5"
serde = { version = "1", features = ["derive"] }
serde_json = "1"
windows = { version = "0.58", default-features = false, features = ["Win32_Foundation", "Win32_System_DataExchange", "Win32_System_Memory"] }
