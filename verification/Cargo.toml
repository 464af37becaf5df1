[package]
name = "tales_tree"
version = "0.1.0"
edition = "2021"
publish = false

[dependencies]
uuid = { version = "=1.29.0", features = ["v4"] }
chrono = { version = "=0.4.45", default-features = false, features = ["clock", "std"] }
serde = { version = "=1.0.229", features = ["derive"] }
serde_json = "=1.0.154"
anyhow = "=1.0.104"
thiserror = "=1.0.69"
tracing = "=0.1.44"
tokio = { version = "=1.54.1", features = ["rt"] }
sqlx = { version = "=0.8.6", default-features = false, features = ["postgres", "runtime-tokio", "chrono", "uuid", "json"] }
async-trait = "0.1"
