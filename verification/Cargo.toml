[package]
name = "hyperdriver"
version = "0.1.0"
edition = "2021"
publish = false

[dependencies]
bytes = "=1.12.1"
camino = "=1.2.6"
dashmap = "=5.5.3"
futures-util = { version = "=0.3.34", default-features = false, features = ["std"] }
http = "=1.5.0"
http-body = "=1.1.0"
http-body-util = "=0.1.5"
humantime-serde = "1"
hyper = { version = "=1.12.0", features = ["client", "server", "http1", "http2"] }
hyper-util = { version = "=0.1.21", features = ["tokio"] }
libc = "=0.2.191"
parking_lot = { version = "=0.12.5", features = ["arc_lock"] }
pin-project = "=1.1.13"
rustls = { version = "=0.23.46", default-features = false, features = ["std", "tls12"] }
rustls-native-certs = "=0.8.5"
serde = { version = "=1.0.229", features = ["derive"] }
socket2 = { version = "=0.5.10", features = ["all"] }
thiserror = "=1.0.69"
tokio = { version = "=1.54.1", features = ["io-util", "net", "rt", "sync", "time"] }
tower = { version = "=0.4.13", features = ["make", "util"] }
tracing = "=0.1.44"
tokio-rustls = { version = "0.26", default-features = false, features = ["tls12"] }
tower-http = { version = "0.5", features = ["follow-redirect", "set-header"] }
