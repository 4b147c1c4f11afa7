[package]
name = "mix-mixer"
version = "0.1.4"
edition = "2021"
publish = false

[dependencies]
clap = { version = "=4.6.7", features = ["derive"] }
crossbeam-channel = "=0.5.17"
eframe = { version = "=0.29.1", default-features = false, features = ["default_fonts", "glow"] }
rubato = "=0.15.0"
serde = { version = "=1.0.229", features = ["derive"] }
serde_json = "=1.0.154"
thiserror = "=1.0.69"
tracing = "=0.1.44"
tracing-subscriber = { version = "=0.3.23", default-features = false, features = ["env-filter", "fmt", "ansi"] }
tray-icon = "=0.19.3"
windows-sys = { version = "=0.59.0", features = ["Win32_Globalization", "Win32_UI_WindowsAndMessaging", "Win32_Foundation"] }
winit = { version = "=0.30.13", default-features = false }
