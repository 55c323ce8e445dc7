[package]
name = "ansimage"
version = "0.1.0"
edition = "2021"
publish = false

[dependencies]
clap = { version = "*", features = ["derive"] }
color-eyre = "*"
fast_image_resize = "*"
image = { version = "*", default-features = false, features = ["png", "jpeg"] }
imagequant = "*"
palette = "*"
rayon = "*"
thiserror = "*"
