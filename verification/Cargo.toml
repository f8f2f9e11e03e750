[package]
name = "option_pricing"
version = "0.1.0"
edition = "2021"
publish = false

[dependencies]
rand = "*"
rand_distr = "*"
rayon = "*"
statrs = "*"
