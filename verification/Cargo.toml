[package]
name = "wootctl"
version = "0.1.0"
edition = "2021"
publish = false

[dependencies]
hidapi = "=2.6.7"
active-win-pos-rs = "=0.8.4"
sysinfo = { version = "=0.28.4", default-features = false }
toml = "=0.7.8"
serde = { version = "=1.0.229", features = ["derive"] }
clap = { version = "=4.4.18", features = ["derive"] }
