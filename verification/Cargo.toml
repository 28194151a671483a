[package]
name = "prism_client"
version = "0.1.0"
edition = "2021"
publish = false

[dependencies]
uuid = { version = "=1.29.0", features = ["v7"] }
getrandom = "=0.4.3"
hex = "=0.4.3"
serde = { version = "=1.0.229", features = ["derive"] }
serde_json = "=1.0.154"
dirs = "=5.0.1"
tokio = { version = "=1.54.1", features = ["rt-multi-thread", "macros", "time", "sync"] }
bytes = "=1.12.1"
quinn = "=0.11.12"
rustls = { version = "=0.23.46", default-features = false, features = ["ring", "std", "logging", "tls12"] }
thiserror = "=2.0.21"
tracing = "=0.1.44"
tracing-subscriber = "=0.3.23"
openh264 = "=0.9.9"
minifb = "=0.29.0"
arboard = "=3.7.0"
