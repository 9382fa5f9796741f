[package]
name = "gateway"
version = "0.1.0"
edition = "2021"
publish = false

[dependencies]
dotenv = "0.15"
futures = "0.3"
futures-util = "0.3"
log = "0.4"
nym-sphinx-addressing = "2.0.0"
pretty_env_logger = "0.4"
tokio = { version = "1", features = ["macros", "rt-multi-thread", "net", "time", "io-util"] }
tokio-tungstenite = "0.24"
tungstenite = "0.24"
