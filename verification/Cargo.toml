[package]
name = "sdf_surfer"
version = "0.1.0"
edition = "2021"
publish = false

[dependencies]
anyhow = "1"
gilrs = "0.8"
nalgebra = "0.29"
notify = "4.0"
shaderc = "0.7"
structopt = "0.3"
