[package]
name = "rlgym_rs"
version = "0.1.0"
edition = "2021"
publish = false

[dependencies]
rocketsim_rs = { version = "=0.32.1", default-features = false, features = ["bin", "glam"] }
