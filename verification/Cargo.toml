[package]
name = "faery_operators"
version = "0.1.0"
edition = "2021"
publish = false

[dependencies]
faer = "0.18"
faer-entity = "0.18"
