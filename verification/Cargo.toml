[package]
name = "broadcast_chat"
version = "0.1.0"
edition = "2021"
publish = false

[dependencies]
futures-util = { version = "0.3", default-features = false, features = ["sink", "std"] }
http = "1"
tokio = { version = "1", features = ["io-std", "io-util", "macros", "net", "rt-multi-thread", "sync"] }
tokio-websockets = { version = "*", features = ["client", "fastrand", "server", "sha1_smol"] }
