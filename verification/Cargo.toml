[package]
name = "par_bbox"
version = "0.1.0"
edition = "2021"
publish = false

[dependencies]
geojson = "*"
rayon = "*"
time = "*"
