[package]
name = "svg_resolve"
version = "0.1.0"
edition = "2021"
publish = false

[dependencies]
roxmltree = "=0.21.2"
libflate = "=2.3.2"
isolang = "=2.4.0"
pathfinder_geometry = "=0.5.1"
pathfinder_content = "=0.5.0"
pathfinder_color = "=0.5.0"
pathfinder_renderer = "=0.5.0"
svgtypes = "=0.5.0"
