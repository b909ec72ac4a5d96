[package]
name = "hwprobe"
version = "0.1.0"
edition = "2021"
publish = false

[dependencies]
nvml-wrapper = "=0.13.0"
objc2-metal = "=0.3.2"
serde = { version = "=1.0.229", features = ["derive"] }
serde_json = "=1.0.154"
sysinfo = "=0.37.2"
windows = { version = "=0.62.2", features = ["Win32_Graphics_Dxgi"] }
