[package]
name = "pumpkin_sim"
version = "0.1.0"
edition = "2021"
publish = false

[dependencies]
rand = "0.8"
uuid = "1"
serde = { version = "1", features = ["derive"] }
serde_json = "1"
bitflags = "2"
async-trait = "0.1"
