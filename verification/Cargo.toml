[package]
name = "dd_fft"
version = "0.1.0"
edition = "2021"
publish = false

[dependencies]
realfft = "*"
twofloat = "*"
num-complex = "*"
num-traits = "*"
