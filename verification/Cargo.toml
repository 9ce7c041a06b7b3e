[package]
name = "coop_sync"
version = "0.1.0"
edition = "2021"
publish = false

[dependencies]
rtic-sync = "1"
portable-atomic-util = { version = "0.2", features = ["alloc"] }
pin-project = "1"

[dev-dependencies]
async-std = { version = "1", features = ["unstable"] }
rtic-core = "1"
critical-section = { version = "1", features = ["std"] }
