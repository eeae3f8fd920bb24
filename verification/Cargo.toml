[package]
name = "home_api"
version = "0.1.0"
edition = "2021"
publish = false

[dependencies]
anyhow = "=1.0.104"
dropshot = "=0.17.1"
futures = "=0.3.34"
futures-util = "=0.3.34"
getopts = "=0.2.24"
hyper = "=1.12.0"
illumos-priv = "=0.2.0"
reqwest = { version = "=0.13.5", default-features = false, features = ["json", "rustls"] }
roxmltree = "=0.18.1"
schemars = "=0.8.22"
serde = { version = "=1.0.229", features = ["derive"] }
serde_json = "=1.0.154"
serde_repr = "=0.1.21"
slog = "=2.8.2"
sonor = "=2.0.0"
thiserror = "=2.0.21"
tokio = { version = "=1.54.1", features = ["full"] }
toml = "=1.1.8"
