[package]
name = "zfs_backend"
version = "0.1.0"
edition = "2021"
publish = false

[dependencies]
async-trait = "0.1"
chrono = { version = "0.4", default-features = false, features = ["clock", "std"] }
futures = "0.3"
libc = "0.2"
nix = { version = "0.29", default-features = false }
tokio = { version = "1", default-features = false, features = ["io-util", "process", "rt", "time"] }
tonic = { version = "0.12", default-features = false }
tracing = { version = "0.1", default-features = false, features = ["std"] }
url = "2"
uuid = { version = "1", features = ["v4"] }
