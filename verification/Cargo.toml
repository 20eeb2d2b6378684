[package]
name = "lightfixes"
version = "0.1.0"
edition = "2021"
publish = false

[dependencies]
tes3 = "*"
palette = "*"
toml = "*"
serde = { version = "*", features = ["derive"] }
openmw-cfg = "*"
