[package]
name = "lyre"
version = "0.1.0"
edition = "2021"
publish = false

[dependencies]
unicode-width = "=0.2.3"
deunicode = "=1.6.2"
fuzzy-matcher = "=0.3.7"
rand = "=0.8.8"
clap = { version = "=4.6.7", features = ["derive"] }
crossterm = "=0.28.1"
serde = { version = "=1.0.229", features = ["derive"] }
toml = "=0.8.23"
lofty = "=0.22.4"
walkdir = "=2.5.0"
rusqlite = { version = "=0.32.1", features = ["bundled"] }
strsim = "=0.11.1"
anyhow = "=1.0.104"
globset = "=0.4.21"
reqwest = { version = "0.12", default-features = false, features = ["json", "rustls-tls"] }
tokio = { version = "1", features = ["rt-multi-thread", "time"] }
