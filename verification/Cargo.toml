[package]
name = "coral"
version = "0.1.0"
edition = "2021"
publish = false

[dependencies]
regex = "1"
chrono = "0.4"
num_cpus = "1"
core_affinity = "0.8"
log = { version = "0.4", features = ["kv", "std"] }
tracing = "0.1"
tracing-subscriber = "0.3"
prost = "0.13"
bytes = "1"
crossbeam-channel = "0.5"
serde = { version = "1", features = ["derive"] }
serde_json = "1"
clap = { version = "4", features = ["derive"] }
image = { version = "0.25", default-features = false, features = ["png"] }
fontdue = "0.9"
tokio = { version = "1", features = ["rt-multi-thread", "sync", "time", "net", "macros"] }
hyper = { version = "1", features = ["client", "server", "http1", "http2"] }
hyper-util = { version = "0.1", features = ["tokio", "server-auto", "http1", "http2"] }
http = "1"
uuid = { version = "1", features = ["v4"] }
rustls = { version = "0.23", default-features = false, features = ["ring", "std", "tls12", "logging"] }
rustls-pemfile = "2"
webpki-roots = "0.26"
tokio-rustls = { version = "0.26", default-features = false, features = ["ring", "tls12", "logging"] }
