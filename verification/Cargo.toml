[package]
name = "codex_installer"
version = "0.1.0"
edition = "2021"
publish = false

[dependencies]
semver = "1"
sha2 = "0.10"
hex = "0.4"
reqwest = { version = "0.12", default-features = false, features = ["json", "stream", "rustls-tls"] }
serde = { version = "1", features = ["derive"] }
anyhow = "1"
dirs = "5"
futures-util = "0.3"
open = "5"
tokio = { version = "1", features = ["time"] }
windows-sys = { version = "0.59", features = ["Win32_Foundation", "Win32_System_DataExchange", "Win32_System_Memory"] }
winreg = "0.52"
