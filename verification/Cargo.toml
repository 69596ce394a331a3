[package]
name = "motion_extract"
version = "0.1.0"
edition = "2021"
publish = false

[dependencies]
jpeg-decoder = "*"
rayon = "*"
minifb = "*"
rscam = "*"

[dev-dependencies]
jpeg-encoder = "*"
