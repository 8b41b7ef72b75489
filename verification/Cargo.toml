[package]
name = "steam_props"
version = "0.1.0"
edition = "2021"
publish = false

[dependencies]
seuif97 = "=2.3.8"
rustc_apfloat = "*"
