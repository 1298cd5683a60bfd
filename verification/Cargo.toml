[package]
name = "datasets"
version = "0.1.0"
edition = "2021"
publish = false

[dependencies]
ndarray = "=0.16.1"
flate2 = "=1.1.10"
tar = "=0.4.46"
reqwest = { version = "=0.13.5", default-features = false, features = ["blocking"] }
