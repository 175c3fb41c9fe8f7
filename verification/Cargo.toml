[package]
name = "nautilus_slack"
version = "0.1.0"
edition = "2021"
publish = false

[dependencies]
url = "=2.5.8"
nautilus-core = "=0.53.0"
nautilus-model = "=0.53.0"
nautilus-common = { version = "=0.53.0", features = ["live"] }
reqwest = { version = "=0.12.28", default-features = false, features = ["json", "rustls-tls"] }
serde = { version = "=1.0.229", features = ["derive"] }
serde_json = "=1.0.154"
tokio = { version = "=1.54.1", features = ["rt-multi-thread", "macros"] }
anyhow = "=1.0.104"
async-trait = "=0.1.92"
log = "=0.4.35"
zeroize = { version = "=1.9.1", features = ["derive"] }
pyo3 = "0.28"
