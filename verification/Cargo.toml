[package]
name = "loot_meter"
version = "0.1.0"
edition = "2021"
publish = false

[dependencies]
fastrand = "*"
rayon = "*"
serde = { version = "*", features = ["derive"] }
serde_json = "*"
