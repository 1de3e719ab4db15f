[package]
name = "nigui"
version = "0.1.0"
edition = "2021"
publish = false

[dependencies]
biquad = "0.4"
rustfft = "6"
