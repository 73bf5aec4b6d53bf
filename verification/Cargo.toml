[package]
name = "glyph_text"
version = "0.1.0"
edition = "2021"
publish = false

[dependencies]
sdl2 = { version = "0.35", default-features = false, features = ["ttf", "unsafe_textures"] }
