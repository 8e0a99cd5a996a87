[package]
name = "mainet"
version = "0.1.0"
edition = "2021"
publish = false

[dependencies]
libp2p = { version = "*", features = ["gossipsub", "kad", "mdns", "macros", "noise", "tcp", "tokio", "yamux"] }
tokio = { version = "1", features = ["full"] }
once_cell = "1"
pretty_env_logger = "*"
