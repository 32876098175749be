[package]
name = "query_core"
version = "0.1.0"
edition = "2021"
publish = false

[dependencies]
itertools = "=0.14.0"
num-traits = "=0.2.19"
parking_lot = "=0.12.5"
futures-util = "=0.3.34"
async-trait = "=0.1.92"
tracing = "=0.1.44"
rand = { version = "=0.8.8", features = ["small_rng"] }
ordered-float = "=4.6.0"
sqlparser = "=0.63.0"
opendal = { version = "*", default-features = false }
