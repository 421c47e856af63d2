[package]
name = "benchmark_runner"
version = "0.1.0"
edition = "2021"
publish = false

[dependencies]
alloy-consensus = { version = "1", features = ["k256", "serde", "serde-bincode-compat"] }
alloy-genesis = { version = "1", features = ["serde-bincode-compat"] }
alloy-primitives = { version = "1", features = ["k256", "serde"] }
alloy-rlp = "0.3"
alloy-rpc-types-debug = "1"
anyhow = "1"
bincode = { version = "2", features = ["serde"] }
clap = { version = "4", features = ["derive"] }
hex = "0.4"
humantime = "2"
rayon = "1"
serde = { version = "1", features = ["derive"] }
serde_json = "1"
serde_with = "3"
tokio = { version = "1", features = ["macros", "rt-multi-thread", "time"] }
tracing = "0.1"
tracing-subscriber = { version = "0.3", features = ["env-filter"] }
