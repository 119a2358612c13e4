[package]
name = "puzzle_schnorr"
version = "0.1.0"
edition = "2021"
publish = false

[dependencies]
k256 = "0.13"
sha2 = "0.10"
rand_core = { version = "0.6", features = ["getrandom"] }
