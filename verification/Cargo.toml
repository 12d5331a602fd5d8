[package]
name = "kinematics_controller"
version = "0.1.0"
edition = "2021"
publish = false

[dependencies]
rust_decimal = { version = "*", features = ["maths"] }
serialport = { version = "*", default-features = false }
