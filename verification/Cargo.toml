[package]
name = "angle_unit"
version = "0.1.0"
edition = "2021"
publish = false

[dependencies]
geo-types = "0.7"

[dev-dependencies]
approx = "0.5"
