[package]
name = "xcm"
version = "0.1.0"
edition = "2021"
publish = false

[dependencies]
hex = "=0.4.3"
staging-xcm = { version = "=25.0.0", default-features = false }
parity-scale-codec = { version = "=3.7.5", default-features = false, features = ["chain-error"] }
clap = { version = "=4.6.7", features = ["derive"] }
