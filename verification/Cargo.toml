[package]
name = "fair_launch"
version = "0.1.0"
edition = "2021"
publish = false

[dependencies]
primitive-types = { version = "=0.12.2", features = ["serde"] }
linera-base = { version = "=0.15.23", default-features = false }
serde = { version = "=1.0.229", features = ["derive"] }
serde_json = "=1.0.154"
thiserror = "=1.0.69"
async-graphql = "=7.0.17"
log = "=0.4.34"
