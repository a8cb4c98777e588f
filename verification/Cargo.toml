[package]
name = "inference_runtime"
version = "0.1.0"
edition = "2021"
publish = false

[dependencies]
flate2 = "1"
futures = "0.3"
reqwest = { version = "0.12", features = ["json", "stream"] }
rusqlite = "0.31"
serde = { version = "1", features = ["derive"] }
serde_json = "1"
sysinfo = "0.30"
tar = "0.4"
tempfile = "3"
tokio = { version = "1", features = ["time", "rt"] }
zip = { version = "0.6", default-features = false, features = ["deflate"] }
