[package]
name = "litep2p"
version = "0.1.0"
edition = "2021"
publish = false

[dependencies]
async-trait = "=0.1.92"
ed25519-dalek = "=3.0.0"
futures = "=0.3.34"
multiaddr = "=0.19.1"
quinn = { version = "0.10", default-features = false, features = ["tls-rustls", "runtime-tokio"] }
rustls = { version = "0.21", features = ["dangerous_configuration", "quic"] }
tokio = { version = "=1.54.1", features = ["sync", "rt", "net", "macros", "io-util"] }
tokio-util = { version = "=0.7.20", features = ["codec", "compat"] }
tracing = "=0.1.44"

[dev-dependencies]
prost = "=0.14.4"
