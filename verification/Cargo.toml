[package]
name = "fungi_transport"
version = "0.1.0"
edition = "2021"
publish = false

[dependencies]
capnp = "=0.21.7"
capnp-rpc = "=0.21.0"
futures-util = "=0.3.34"
tokio = { version = "=1.54.1", features = ["io-std", "io-util", "macros", "process", "rt", "sync", "test-util", "time"] }
tokio-util = { version = "=0.7.20", features = ["compat"] }
