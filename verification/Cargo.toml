[package]
name = "download_async"
version = "0.1.0"
edition = "2021"
publish = false

[dependencies]
async-compression = { version = "0.4", features = ["tokio", "gzip", "brotli", "zlib"] }
async-trait = "=0.1.92"
bytes = "=1.12.1"
futures-core = "=0.3.34"
http = "=0.2.12"
http-body = "=0.4.6"
hyper = { version = "=0.14.32", features = ["client", "http1", "http2", "tcp", "stream"] }
hyper-tls = "=0.5.0"
log = "=0.4.34"
pin-project-lite = "=0.2.17"
tokio = { version = "=1.54.1", features = ["time"] }
tokio-util = { version = "=0.7.20", features = ["io"] }
tower = { version = "=0.4.13", default-features = false }
