[package]
name = "flaps_client"
version = "0.1.0"
edition = "2021"
publish = false

[dependencies]
serde_json = "1"
urlencoding = "2"
serde = { version = "1", features = ["derive"] }
reqwest = "0.11"
hyper = { version = "0.14", features = ["client", "http1"] }
tokio = { version = "1", features = ["net", "io-util", "time", "rt"] }
http = "0.2"
url = "2"
bytes = "1"
futures = "0.3"
chrono = "0.4"
async-trait = "0.1"
pin-project = "1"
