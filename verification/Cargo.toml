[package]
name = "peer_node"
version = "0.1.0"
edition = "2021"
publish = false

[dependencies]
anyhow = "=1.0.104"
async-trait = "=0.1.92"
futures-lite = "=2.6.1"
futures-util = "=0.3.34"
p2panda-core = "=0.3.1"
p2panda-sync = { version = "=0.3.1", features = ["cbor", "test-protocols"] }
serde = { version = "=1.0.229", features = ["derive"] }
tokio = { version = "=1.54.1", features = ["macros", "rt-multi-thread", "sync", "time"] }
