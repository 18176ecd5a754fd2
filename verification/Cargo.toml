[package]
name = "num_runtime_fmt"
version = "0.1.0"
edition = "2021"
publish = false

[dependencies]
iterext = "*"
lazy_static = "1"
regex = "1"
thiserror = "1"
