[package]
name = "cubek_matmul"
version = "0.1.0"
edition = "2021"
publish = false

[dependencies]
cubecl = { version = "*", default-features = false }
cubecl-common = "*"
half = "*"
serde = { version = "*", features = ["derive"] }
