[package]
name = "thunder_mirror"
version = "0.2.0"
edition = "2021"
publish = false

[dependencies]
anyhow = "1"
bytes = "1"
chrono = { version = "0.4", default-features = false, features = ["clock", "std"] }
clap = { version = "4", default-features = false, features = ["derive", "std", "help", "usage", "error-context"] }
hostname = "0.4"
if-addrs = "*"
mdns-sd = "*"
minifb = "*"
openh264 = "0.6"
quinn = "0.10"
rcgen = "0.11"
rustls = "0.21"
serde = { version = "1", features = ["derive"] }
thiserror = "1"
tokio = { version = "1", features = ["rt-multi-thread", "sync", "macros", "time"] }
tracing = "0.1"
tracing-subscriber = { version = "0.3", features = ["env-filter"] }
