[package]
name = "rollup_boost"
version = "0.1.0"
edition = "2021"
publish = false

[dependencies]
alloy-primitives = { version = "*", default-features = false, features = ["std"] }
alloy-rpc-types-engine = { version = "*", default-features = false, features = ["std", "serde"] }
alloy-rpc-types-eth = { version = "*", default-features = false, features = ["std", "serde"] }
op-alloy-rpc-types-engine = { version = "*", default-features = false, features = ["std", "serde"] }
eyre = "*"
jsonrpsee = { version = "*", default-features = false, features = ["server", "macros", "client-core"] }
jsonrpsee-http-client = { version = "*", default-features = false }
serde = { version = "*", features = ["derive"] }
serde_json = "*"
thiserror = "*"
tokio = { version = "*", default-features = false, features = ["sync", "rt", "macros"] }
tracing = "*"
