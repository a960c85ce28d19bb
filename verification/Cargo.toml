[package]
name = "rmrk_token"
version = "0.1.0"
edition = "2021"
publish = false

[dependencies]
gstd = "*"
gmeta = "*"
hashbrown = "*"
primitive-types = { version = "*", default-features = false, features = ["codec", "scale-info"] }
parity-scale-codec = { version = "*", default-features = false, features = ["derive"] }
scale-info = { version = "*", default-features = false, features = ["derive"] }
