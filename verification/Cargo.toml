[package]
name = "model_gateway"
version = "0.1.0"
edition = "2021"
publish = false

[dependencies]
serde_json = "*"
serde = { version = "*", features = ["derive"] }
serde_yaml = "*"
log = "*"
env_logger = "*"
clap = "*"
tokio = { version = "*", features = ["macros", "rt", "time"] }
actix-web = "*"
tonic = "*"
prost = "*"
