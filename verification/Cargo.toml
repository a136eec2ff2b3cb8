[package]
name = "futurist"
version = "0.1.0"
edition = "2021"
publish = false

[dependencies]
sha2 = "0.10"
aes = "0.8"
cbc = { version = "0.1", features = ["alloc", "block-padding"] }
getrandom = "0.3"
uuid = "1"
hex = "0.4"
serde = { version = "1", features = ["derive"] }
serde_json = "1"
anyhow = "1"
thiserror = "2"
clap = { version = "4", features = ["derive", "env"] }
tokio = { version = "1", features = ["rt-multi-thread", "macros", "net", "io-util", "time", "sync"] }
futures = "0.3"
btleplug = "0.11"
reqwest = { version = "0.12", default-features = false, features = ["json", "rustls-tls"] }
