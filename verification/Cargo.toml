[package]
name = "sas_reader_2000"
version = "0.1.0"
edition = "2021"
publish = false

[dependencies]
byteorder = "1"
chrono = "0.4"
derive_builder = "0.20"
polars = { version = "*", default-features = false, features = ["lazy"] }
