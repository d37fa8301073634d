[package]
name = "sphere_springs"
version = "0.1.0"
edition = "2021"
publish = false

[dependencies]
num = "*"
plotters = { version = "*", default-features = false, features = ["svg_backend", "line_series"] }
rand = "*"
rayon = "*"
serde = { version = "*", features = ["derive"] }
serde_yaml = "*"
three-d = "*"
