[package]
name = "zoneddatetime"
version = "0.1.0"
edition = "2021"
publish = false

[dependencies]
temporal_rs = { version = "=0.2.6", default-features = false, features = ["compiled_data"] }
num-traits = "=0.2.19"
