[package]
name = "gisonet"
version = "0.1.0"
edition = "2021"
publish = false

[dependencies]
actix-web = { version = "4", features = ["rustls-0_23"] }
anyhow = "1"
async-trait = "0.1"
clap = { version = "4", features = ["derive"] }
color-eyre = "0.6"
hickory-client = "0.25"
hickory-proto = "0.25"
hickory-server = "0.25"
image = { version = "0.25", default-features = false, features = ["png"] }
once_cell = "1"
parking_lot = "0.12"
rcgen = "0.14"
reqwest = { version = "0.12", default-features = false, features = ["rustls-tls"] }
rustls = { version = "0.23", default-features = false, features = ["ring", "std", "logging", "tls12"] }
serde = { version = "1", features = ["derive"] }
serde_json = "1"
tokio = { version = "1", features = ["full"] }
toml = "0.8"
tracing = "0.1"
tracing-subscriber = { version = "0.3", features = ["env-filter"] }
tray-menu = "*"
