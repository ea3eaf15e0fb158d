[package]
name = "whoami"
version = "0.1.0"
edition = "2021"
publish = false

[dependencies]
libp2p = { version = "0.54", default-features = false, features = ["tokio", "tcp", "noise", "yamux", "quic", "dns", "ed25519"] }
libp2p-stream = "0.2.0-alpha"
serde = { version = "1", features = ["derive"] }
cbor4ii = { version = "0.3", features = ["serde1", "use_std"] }
url = "2"
tokio = { version = "1", features = ["macros", "rt-multi-thread", "sync", "time"] }
tracing = "0.1"
tracing-subscriber = { version = "0.3", features = ["env-filter"] }
clap = { version = "4", features = ["derive"] }
