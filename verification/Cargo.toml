[package]
name = "jellyname"
version = "0.1.0"
edition = "2021"
publish = false

[dependencies]
strfmt = "0.2"
clap = { version = "4", features = ["derive", "env"] }
color-eyre = "0.6"
crossterm = "0.28"
glob = "0.3"
indicatif = "0.17"
matroska = "0.30"
ratatui = "0.29"
serde = { version = "1", features = ["derive"] }
serde_json = "1"
serde_yaml = "0.9"
tmdb-api = "0.9"
tokio = { version = "1", features = ["full"] }
tracing = "0.1"
tracing-subscriber = { version = "0.3", features = ["env-filter"] }
