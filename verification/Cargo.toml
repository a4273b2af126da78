[package]
name = "satellite_simulator"
version = "0.1.0"
edition = "2021"
publish = false

[dependencies]
ndarray = "0.15"
ndarray-linalg = "0.16"
chrono = "0.4"
statrs = "0.16"
