[package]
name = "forest_sync"
version = "0.1.0"
edition = "2021"
publish = false

[dependencies]
async-std = "1"
futures = "0.3"
libp2p = { version = "*", default-features = false }
log = "0.4"
flo_stream = "*"
num-bigint = "0.2"
num-traits = "0.2"
num-derive = "0.3"
