[package]
name = "gossipnet"
version = "0.1.0"
edition = "2021"
publish = false

[dependencies]
color-eyre = "0.6"
futures = "0.3"
libp2p = { version = "=0.53.2", features = ["tokio", "tcp", "noise", "yamux", "gossipsub", "mdns", "ping", "macros"] }
tokio = { version = "1", features = ["full"] }
tracing = "0.1"
