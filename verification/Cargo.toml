[package]
name = "rs_liquid_xoxno"
version = "0.1.0"
edition = "2021"
publish = false

[dependencies]
multiversx-sc = "*"
multiversx-sc-modules = "*"
