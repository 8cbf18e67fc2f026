[package]
name = "komokana"
version = "0.1.0"
edition = "2021"
publish = false

[dependencies]
serde_json = "1"
json_dotpath = "*"
serde = { version = "1", features = ["derive"] }
serde_yaml = "*"
clap = { version = "*", features = ["derive"] }
log = "*"
env_logger = "*"
color-eyre = "*"
once_cell = "*"
dirs = "*"
parking_lot = "*"
