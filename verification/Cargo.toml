[package]
name = "pacaptr"
version = "0.1.0"
edition = "2021"
publish = false

[dependencies]
is-root = "0.1"
regex = "1"
which = "4"
lazy_static = "1"
bytes = "1"
futures = "0.3"
tokio = { version = "1", features = ["process", "io-util", "io-std", "rt-multi-thread", "sync", "macros"] }
tokio-util = { version = "0.7", features = ["codec"] }
