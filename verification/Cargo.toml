[package]
name = "cohors"
version = "0.1.0"
edition = "2021"
publish = false

[dependencies]
md5 = "0.7"
rand = "0.9"
urlencoding = "2"
anyhow = "1"
serde = { version = "1", features = ["derive"] }
serde_json = "1"
reqwest = { version = "0.12", default-features = false, features = ["blocking", "json", "rustls-tls"] }
tokio = { version = "1", features = ["full"] }
ratatui = "0.29"
crossterm = "0.28"
rodio = "0.20"
spectrum-analyzer = "1"
mpris-server = "*"
zbus = "5"
clap = { version = "4", features = ["derive"] }
libc = "0.2"

[dev-dependencies]
tempfile = "3"
