[package]
name = "vector_db_proxy"
version = "0.1.0"
edition = "2021"
publish = false

[dependencies]
amqp_serde = "*"
amqprs = "*"
anyhow = "*"
qdrant-client = "*"
serde_json = "*"
tokio = { version = "*", features = ["sync", "time", "rt"] }
tracing = "*"
