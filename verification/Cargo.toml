[package]
name = "orbit_engine"
version = "0.1.0"
edition = "2021"
publish = false

[dependencies]
sgp4 = "=2.4.0"
ureq = { version = "=2.12.1", features = ["json"] }
