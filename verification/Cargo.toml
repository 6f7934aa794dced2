[package]
name = "bloomer"
version = "0.1.0"
edition = "2021"
publish = false

[dependencies]
fastbloom = { version = "*", features = ["serde"] }
postcard = { version = "*", features = ["alloc"] }
rayon = "*"
serde = "*"
zstd = "*"
