[package]
name = "hcn"
version = "0.1.0"
edition = "2021"
publish = false

[dependencies]
anyhow = "=1.0.104"
serde = { version = "=1.0.229", features = ["derive"] }
serde_json = "=1.0.154"
serde_repr = "=0.1.21"
windows = { version = "=0.52.0", features = ["Win32_Foundation", "Win32_System_Com", "Win32_System_HostComputeNetwork"] }
