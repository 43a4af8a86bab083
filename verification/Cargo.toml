[package]
name = "tarot_pile"
version = "0.1.0"
edition = "2021"
publish = false

[dependencies]
itertools = "0.7"
rand = "0.5"

[dev-dependencies]
rand_core = "0.3"
