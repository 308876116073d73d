[package]
name = "bizray_tui"
version = "0.1.0"
edition = "2021"
publish = false

[dependencies]
chrono = { version = "0.4", features = ["serde"] }
config = "0.14"
crossterm = "0.27"
directories = "5"
ratatui = "0.26"
reqwest = { version = "0.11", default-features = false, features = ["json", "rustls-tls"] }
serde = { version = "1", features = ["derive"] }
serde_json = "1"
thiserror = "1"
tokio = { version = "1", features = ["full"] }
toml = "0.8"
unicode-width = "0.1"
urlencoding = "2"
