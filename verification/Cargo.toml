[package]
name = "rgb_schemata"
version = "0.1.0"
edition = "2021"
publish = false

[dependencies]
aluvm = "=0.10.7"
amplify = "4"
chrono = "=0.4.45"
rgb-std = "=0.10.9"
sha2 = "=0.10.9"
strict_encoding_derive = ">=2.0.1, <2.7"
strict_types = "=1.6.3"
