[package]
name = "link_shortener"
version = "0.1.0"
edition = "2021"
publish = false

[dependencies]
axum = "0.7"
axum-prometheus = "0.6"
base64 = "0.22"
metrics = "0.22"
rand = "0.8"
serde = { version = "1", features = ["derive"] }
sha3 = "0.10"
sqlx = { version = "0.7", default-features = false, features = ["postgres", "runtime-tokio"] }
tokio = { version = "1", features = ["macros", "net", "rt-multi-thread", "time"] }
tower-http = { version = "0.5", features = ["trace"] }
tracing = "0.1"
tracing-subscriber = { version = "0.3", features = ["env-filter"] }
url = "2"
