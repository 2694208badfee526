[package]
name = "voice"
version = "0.1.0"
edition = "2021"
publish = false

[dependencies]
smallvec = "=1.16.4"
thiserror = "=1.0.69"
windows = { version = "=0.48.0", features = ["Win32_Foundation", "Win32_Media_MediaFoundation", "Win32_System_Com"] }
