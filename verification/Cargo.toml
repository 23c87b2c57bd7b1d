[package]
name = "market_pulse"
version = "1.10.2"
edition = "2021"
publish = false

[dependencies]
chrono = "0.4"
eframe = { version = "0.29", default-features = false, features = ["glow", "default_fonts"] }
flate2 = "1"
rand = "0.8"
reqwest = { version = "0.12", default-features = false, features = ["blocking", "cookies", "gzip", "multipart", "rustls-tls"] }
rusqlite = { version = "0.32", features = ["bundled"] }
serde = { version = "1", features = ["derive"] }
serde_json = "1"
toml = "0.8"
urlencoding = "2"
webbrowser = "1"
