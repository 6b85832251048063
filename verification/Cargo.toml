[package]
name = "stackable-cockpit"
version = "0.1.0"
edition = "2021"
publish = false

[dependencies]
reqwest = { version = "=0.12.28", default-features = false, features = ["rustls-tls"] }
serde = { version = "=1.0.229", features = ["derive"] }
serde_yaml = "=0.9.34"
snafu = "=0.8.9"
tera = "=1.20.1"
tokio = { version = "=1.54.1", features = ["fs", "io-util", "process", "rt"] }
tracing = { version = "=0.1.44", features = ["log"] }
url = "=2.5.8"
utoipa = "4"
