[package]
name = "rutzo"
version = "0.1.0"
edition = "2021"
publish = false

[dependencies]
gstd = "1.0.5"
gmeta = "1.0.5"
primitive-types = { version = "0.12.2", default-features = false }
