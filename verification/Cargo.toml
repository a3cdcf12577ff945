[package]
name = "console_client"
version = "0.1.0"
edition = "2021"
publish = false

[dependencies]
dirs = "5"
futures-util = "0.3"
keyring = { version = "2", default-features = false, features = ["linux-default-keyutils"] }
reqwest = { version = "0.12", default-features = false, features = ["json", "rustls-tls"] }
serde = { version = "1", features = ["derive"] }
serde_json = "1"
tokio = { version = "1", features = ["macros", "rt-multi-thread", "sync", "time"] }
tokio-tungstenite = "0.26"
toml = "0.8"
