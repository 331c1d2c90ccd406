[package]
name = "dd_ftp"
version = "0.1.0"
edition = "2021"
publish = false

[dependencies]
chrono = "0.4"
uuid = { version = "1", features = ["v4"] }
anyhow = "1"
thiserror = "1"
async-trait = "0.1"
tokio = { version = "1", features = ["full"] }
ratatui = "0.29"
crossterm = "0.28"
keyring = { version = "3", features = ["linux-native"] }
toml = "0.8"
serde = { version = "1", features = ["derive"] }
serde_yaml = "0.9"
ssh2 = "0.9"
async_ftp = { version = "6", features = ["secure"] }
tokio-rustls = "0.23"
webpki-roots = "0.22"
