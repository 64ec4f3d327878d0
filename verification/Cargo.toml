[package]
name = "qed"
version = "0.1.0"
edition = "2021"
publish = false

[dependencies]
levenberg-marquardt = "=0.15.0"
nalgebra = "=0.34.2"
