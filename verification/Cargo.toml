[package]
name = "radio_widget"
version = "0.1.0"
edition = "2021"
publish = false

[dependencies]
serde_json = "1"
url = "2"
urlencoding = "2"
rand = "0.8"
serde = { version = "1", features = ["derive"] }
toml = "0.8"
tokio = { version = "1", features = ["rt-multi-thread", "macros", "net", "time", "process", "sync", "io-util", "fs"] }
reqwest = { version = "0.12", default-features = false, features = ["stream"] }
futures-util = "0.3"
