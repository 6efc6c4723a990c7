[package]
name = "zk_interval"
version = "0.1.0"
edition = "2021"
publish = false

[dependencies]
blstrs = "0.7"
group = "0.13"
ff = "0.13"
hex = "0.4"
blake2 = "0.10"
rand_core = { version = "0.6", features = ["getrandom"] }
