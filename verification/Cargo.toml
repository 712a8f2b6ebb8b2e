[package]
name = "zxc_money"
version = "0.1.0"
edition = "2021"
publish = false

[dependencies]
chrono = "0.4"
argon2 = "0.5"
rand = "0.8"
serde = { version = "1", features = ["derive"] }
thiserror = "1"
async-trait = "0.1"
