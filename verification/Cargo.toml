[package]
name = "interface"
version = "0.1.0"
edition = "2021"
publish = false

[dependencies]
bitflags = "2"
futures = "0.3"
indexmap = "2"
ipnet = "2"
nix = { version = "0.29", default-features = false }
rtnetlink = "0.11"
slotmap = "1"
thiserror = "1"
tokio = { version = "1", features = ["rt", "sync"] }
