[package]
name = "coupled_diffusion"
version = "0.1.0"
edition = "2021"
publish = false

[dependencies]
ndarray = "0.15"
pyo3 = "0.20"
