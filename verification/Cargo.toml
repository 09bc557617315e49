[package]
name = "pbr_pipeline"
version = "0.1.0"
edition = "2021"
publish = false

[dependencies]
futures = "0.3"
gltf = "0.15"
image = "0.23"
itertools = "0.9"
nalgebra = "0.21"
shaderc = "0.6"
specs = "0.16"
wgpu = "0.5"
winit = "0.22"
