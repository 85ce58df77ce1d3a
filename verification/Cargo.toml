[package]
name = "ion_core"
version = "0.1.0"
edition = "2021"
publish = false

[dependencies]
byteorder = "1"
bumpalo = { version = "3", features = ["collections"] }
num-bigint = "0.4"
num-traits = "0.2"
bigdecimal = "0.4"
chrono = { version = "0.4", default-features = false, features = ["std"] }
serde = { version = "1", features = ["derive"] }

[dev-dependencies]
rand = "0.8"
