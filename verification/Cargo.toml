[package]
name = "svarog_curve25519"
version = "0.1.0"
edition = "2021"
publish = false

[dependencies]
curve25519-dalek = { version = "=4.1.3", features = ["group"] }
group = "=0.13.0"
serde = { version = "=1.0.229", features = ["derive"] }
