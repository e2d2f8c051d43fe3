[package]
name = "fuzz_engine"
version = "0.1.0"
edition = "2021"
publish = false

[dependencies]
libafl = { version = "=0.16.1", default-features = false, features = ["std"] }
libafl_bolts = { version = "=0.16.1", default-features = false, features = ["std", "xxh3"] }
