[package]
name = "wincamcfg"
version = "0.1.0"
edition = "2021"
publish = false

[dependencies]
anyhow = "=1.0.104"
clap = { version = "=4.6.7", features = ["derive"] }
serde = { version = "=1.0.229", features = ["derive"] }
serde_json = "=1.0.151"
serde_with = "=3.24.0"
tracing = "=0.1.44"
tracing-subscriber = { version = "=0.3.23", features = ["env-filter"] }
windows = { version = "=0.58.0", features = [
    "Win32_Devices_DeviceAndDriverInstallation",
    "Win32_Foundation",
    "Win32_Media_DirectShow",
    "Win32_System_Com_StructuredStorage",
    "Win32_System_Com",
    "Win32_System_Registry",
    "Win32_System_Variant",
    "Win32_UI_Shell",
] }
