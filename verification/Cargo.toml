[package]
name = "persia_rpc"
version = "0.1.0"
edition = "2021"
publish = false

[dependencies]
url = "=2.5.8"
lz4 = "=1.28.1"
bincode = "=1.3.3"
serde = "=1.0.229"
hyper = { version = "=0.14.32", features = ["client", "http2", "tcp", "runtime"] }
tokio = { version = "=1.54.1", features = ["rt-multi-thread"] }
flume = "0.11"
