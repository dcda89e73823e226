[package]
name = "arzmq"
version = "0.1.0"
edition = "2021"
publish = false

[dependencies]
z85 = "3"
serde = { version = "1", features = ["derive"] }
thiserror = "2"
parking_lot = "0.12"
async-trait = "0.1"
futures = "0.3"
