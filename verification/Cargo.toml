[package]
name = "fourfourfourfour"
version = "0.1.0"
edition = "2021"
publish = false

[dependencies]
alloy-primitives = "*"
tiny-keccak = { version = "2", features = ["keccak"] }
rand = "0.8"
ocl = "*"
reqwest = { version = "*", default-features = false, features = ["blocking", "json"] }
serde_json = "1"
