[package]
name = "solar_oven"
version = "0.1.0"
edition = "2021"
publish = false

[dependencies]
cobyla = "=1.0.4"
indicatif = "=0.18.6"
linreg = "=0.2.0"
rayon = "=1.12.0"
serde = { version = "=1.0.229", features = ["derive"] }
serde_json = "=1.0.151"
