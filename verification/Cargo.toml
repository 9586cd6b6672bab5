[package]
name = "msnchat"
version = "0.1.0"
edition = "2021"
publish = false

[dependencies]
windows = { version = "=0.60.0", features = ["Win32_System_Com", "Win32_System_Ole", "Win32_System_Variant"] }
windows-core = "0.60"
