[package]
name = "quantum_soft"
version = "0.1.0"
edition = "2021"
publish = false

[dependencies]
clap = { version = "4", features = ["derive"] }
num-complex = "0.4"
rustfft = "6"
ndarray = "0.15"
ndrustfft = "0.4"
plotters = { version = "0.3", default-features = false, features = ["bitmap_backend", "line_series"] }
