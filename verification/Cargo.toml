[package]
name = "wsprobe"
version = "0.1.0"
edition = "2021"
publish = false

[dependencies]
anyhow = "*"
clap = { version = "*", features = ["derive"] }
futures-util = "*"
http = "*"
rustls = { version = "*", default-features = false, features = ["ring", "logging", "std", "tls12"] }
tokio = { version = "*", features = ["macros", "rt-multi-thread", "time"] }
tokio-tungstenite = { version = "*", features = ["rustls-tls-native-roots"] }
