[package]
name = "stark_algebra"
version = "0.1.0"
edition = "2021"
publish = false

[dependencies]
rayon = "1"

[dev-dependencies]
num-bigint = "0.4"
proptest = { version = "1", default-features = false, features = ["std"] }
