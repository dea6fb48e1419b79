[package]
name = "bls12_377_pairing"
version = "0.1.0"
edition = "2021"
publish = false

[dependencies]
ark-bls12-377 = "0.3"
ark-ec = "0.3"
ark-ff = "0.3"
ark-serialize = "0.3"
