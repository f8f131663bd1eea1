[package]
name = "tictactoe_server"
version = "0.1.0"
edition = "2021"
publish = false

[dependencies]
nanoid = "=0.4.0"
rand = "=0.8.8"
serde = { version = "1", features = ["derive"] }
serde_json = "1"
log = "0.4"
env_logger = "0.11"
actix-web = "4"
actix-web-lab = "=0.20.2"
actix-files = "0.6"
actix-session = "0.10"
tokio = { version = "1", features = ["sync"] }
