[package]
name = "autonav"
version = "0.1.0"
edition = "2021"
publish = false

[dependencies]
chrono = "*"
semver = "*"
globset = "*"
serde = { version = "*", features = ["derive"] }
serde_json = "*"
tokio = { version = "*", features = ["full"] }
reqwest = { version = "*", default-features = false, features = ["json", "rustls-tls"] }
notify = "*"
flate2 = "*"
tar = "*"
tempfile = "*"
ignore = "*"
dirs = "*"
clap = { version = "*", features = ["derive"] }
async-trait = "*"
