[package]
name = "simulation"
version = "0.1.0"
edition = "2021"
publish = false

[dependencies]
ethers = { version = "=2.0.14", default-features = false }
revm = { version = "=2.3.1", default-features = false, features = ["std", "k256", "with-serde"] }
serde = { version = "=1.0.229", features = ["derive"] }
warp = { version = "=0.3.7", default-features = false }
