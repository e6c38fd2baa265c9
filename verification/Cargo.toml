[package]
name = "paletten_cloud_hub"
version = "0.1.0"
edition = "2021"
publish = false

[dependencies]
anyhow = "=1.0.104"
rumqttc = "=0.25.1"
serde = { version = "*", features = ["derive"] }
serde_json = "*"
sqlx = { version = "=0.9.0", default-features = false, features = ["runtime-tokio", "sqlite"] }
tokio = { version = "=1.53.2", features = ["macros", "rt-multi-thread", "sync", "signal"] }
tracing = "=0.1.44"
tracing-bunyan-formatter = "=0.3.10"
tracing-subscriber = "=0.3.23"
