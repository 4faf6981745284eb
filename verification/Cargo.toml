[package]
name = "nexrad"
version = "0.1.0"
edition = "2021"
publish = false

[dependencies]
sha2 = "0.10"
hex = "0.4"
thiserror = "2"
serde = { version = "1", features = ["derive"] }
chrono = "0.4"
uom = "0.36"
