[package]
name = "rsnip"
version = "0.1.0"
edition = "2021"
publish = false

[dependencies]
anyhow = "1"
arboard = { version = "3", default-features = false }
chrono = "0.4"
clap = { version = "4", features = ["derive"] }
clap_complete = "4"
config = { version = "0.15", default-features = false, features = ["toml"] }
crossterm = "0.28"
dialoguer = "0.11"
dirs = "6"
fuzzy-matcher = "0.3"
itertools = "0.14"
minijinja = "2"
regex = "1"
serde = { version = "1", features = ["derive"] }
serde_json = "1"
skim = "0.16"
thiserror = "2"
toml = "0.8"
tracing = "0.1"
tracing-subscriber = { version = "0.3", features = ["env-filter"] }
