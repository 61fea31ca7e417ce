[package]
name = "aery"
version = "0.1.0"
edition = "2021"
publish = false

[dependencies]
riven = { version = "*", default-features = false }
lz4_flex = "*"
bitcode = "*"
time = "*"
serde = { version = "*", features = ["derive"] }
