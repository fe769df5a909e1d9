[package]
name = "jaeger_tracing"
version = "0.1.0"
edition = "2021"
publish = false

[dependencies]
mick-jaeger = "*"
blake2 = "*"
async-std = "*"
lazy_static = "*"
log = "*"
parking_lot = "*"

[dev-dependencies]
futures = "*"
