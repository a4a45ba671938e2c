[package]
name = "button_consumer"
version = "0.1.0"
edition = "2021"
publish = false

[dependencies]
chrono = "0.4"
deadpool-postgres = "*"
dotenv = "0.15"
env_logger = "*"
futures = "0.3"
lapin = "2"
log = "0.4"
reqwest = "0.12"
serde = { version = "1", features = ["derive"] }
serde_json = "1"
tokio = { version = "1", features = ["macros", "rt-multi-thread", "signal", "time"] }
tokio-postgres = "0.7"
