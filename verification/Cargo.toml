[package]
name = "xiv_crafting_sim"
version = "0.1.0"
edition = "2021"
publish = false

[dependencies]
genevo = "*"
serde = { version = "*", features = ["derive"] }
serde_json = "*"
