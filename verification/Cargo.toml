[package]
name = "interop_relayer"
version = "0.1.0"
edition = "2021"
publish = false

[dependencies]
alloy-primitives = "*"
anyhow = "*"
clap = { version = "*", features = ["derive"] }
futures = "*"
futures-util = "*"
k256 = "*"
reqwest = { version = "*", default-features = false, features = ["json"] }
serde = { version = "*", features = ["derive"] }
serde_json = "*"
tokio = { version = "*", features = ["macros", "rt-multi-thread", "sync", "time"] }
