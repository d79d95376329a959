[package]
name = "gml_runtime"
version = "0.1.0"
edition = "2021"
publish = false

[dependencies]
rect_packer = "*"
rustc_apfloat = "*"
getopts = "*"
serde = { version = "1", features = ["derive"] }
