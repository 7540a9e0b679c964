[package]
name = "fee_escalator"
version = "0.1.0"
edition = "2021"
publish = false

[dependencies]
ethers = "2"
log = "0.4"
serde = { version = "1", features = ["derive"] }
thiserror = "1"
tokio = { version = "1", features = ["macros", "rt", "time"] }
