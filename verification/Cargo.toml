[package]
name = "blah3"
version = "0.1.0"
edition = "2021"
publish = false

[dependencies]
cpal = "*"
dirs = "*"
futures-util = "*"
hound = "*"
reqwest = { version = "*", default-features = false, features = ["rustls-tls", "stream"] }
rodio = { version = "*", default-features = false }
serde = { version = "*", features = ["derive"] }
serde_json = "*"
sysinfo = "*"
tokio = { version = "*", features = ["rt", "rt-multi-thread", "time", "fs", "io-util", "macros"] }
zip = { version = "*", default-features = false, features = ["deflate"] }
