[package]
name = "pathfinder_rasterize"
version = "0.1.0"
edition = "2021"
publish = false

[dependencies]
gl = "*"
image = { version = "*", default-features = false }
khronos-egl = { version = "*", features = ["static"] }
pathfinder_color = "*"
pathfinder_geometry = "*"
pathfinder_gl = "*"
pathfinder_gpu = "*"
pathfinder_renderer = "*"
pathfinder_resources = "*"
