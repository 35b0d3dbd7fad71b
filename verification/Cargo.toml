[package]
name = "kafka_publish"
version = "0.1.0"
edition = "2021"
publish = false

[dependencies]
anyhow = "=1.0.104"
atty = "=0.2.14"
clap = { version = "=4.6.7", features = ["derive"] }
config = "=0.14.1"
env_logger = "=0.11.11"
futures = "=0.3.34"
log = "=0.4.34"
rdkafka = "=0.39.0"
serde = { version = "=1.0.229", features = ["derive"] }

[dev-dependencies]
serde_json = "=1.0.154"
