[package]
name = "rta_server"
version = "0.1.0"
edition = "2021"
publish = false

[dependencies]
ring = "*"
hex = "*"
base64 = "*"
serde_json = "*"
dashmap = "*"
anyhow = "*"
tokio = { version = "*", features = ["full"] }
quinn = { version = "*", default-features = false, features = ["rustls-ring", "runtime-tokio", "log"] }
rustls = { version = "*", default-features = false, features = ["ring", "std", "logging", "tls12"] }
rustls-pemfile = "*"
redis = { version = "*", features = ["tokio-comp"] }
reqwest = { version = "*", default-features = false, features = ["rustls-tls", "json"] }
futures = "*"
tracing = "*"
tracing-subscriber = { version = "*", features = ["env-filter"] }
serde = { version = "*", features = ["derive"] }
config = "*"
