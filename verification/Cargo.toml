[package]
name = "micap_server"
version = "0.1.0"
edition = "2021"
publish = false

[dependencies]
anyhow = "1"
byteorder = "1"
dirs = "*"
env_logger = "*"
futures-util = { version = "0.3", default-features = false, features = ["sink", "std"] }
glam = "*"
log = "0.4"
rosc = "*"
serde = { version = "1", features = ["derive"] }
serde_json = "1"
tokio = { version = "1", features = ["net", "time", "rt", "macros"] }
tokio-tungstenite = "*"
