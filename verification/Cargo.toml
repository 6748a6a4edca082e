[package]
name = "mutation_pipeline"
version = "0.1.0"
edition = "2021"
publish = false

[dependencies]
uuid = { version = "*", features = ["v4"] }
axum = "*"
tokio = { version = "*", features = ["macros", "rt-multi-thread", "net"] }
serde = { version = "*", features = ["derive"] }
serde_json = "*"
tokio-postgres = "*"
deadpool-postgres = "*"
rdkafka = "*"
dotenvy = "*"
env_logger = "*"
log = "*"
