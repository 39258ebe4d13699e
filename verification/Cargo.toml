[package]
name = "charmev_p2p"
version = "0.1.0"
edition = "2021"
publish = false

[dependencies]
futures = "=0.3.34"
libp2p = { version = "=0.57.0", default-features = false, features = ["gossipsub", "macros", "noise", "tcp", "tokio", "yamux"] }
tokio = { version = "=1.53.2", default-features = false, features = ["macros", "rt", "time"] }
