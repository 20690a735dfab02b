[package]
name = "rldp"
version = "0.1.0"
edition = "2021"
publish = false

[dependencies]
raptorq = "1"
dashmap = "5"
rand = "0.8"
tokio = { version = "1", features = ["sync", "time", "rt"] }
lockfree = "0.5"
log = "0.4"
base64 = "0.13"
async-trait = "0.1"
