[package]
name = "oxi_net"
version = "0.1.0"
edition = "2021"
publish = false

[dependencies]
rand = "0.8"
rand_distr = "0.4"
ndarray = { version = "0.15", features = ["serde"] }
serde = { version = "1", features = ["derive"] }
serde_json = "1"
image = "0.24"
indicatif = "0.17"
walkdir = "2"
rust-mnist = "*"
