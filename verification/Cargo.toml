[package]
name = "textmesh"
version = "0.1.0"
edition = "2021"
publish = false

[dependencies]
ab_glyph = "*"
gl = "*"
glfw = "*"
image = "*"
nalgebra = "*"
palette = "*"
tobj = "*"
