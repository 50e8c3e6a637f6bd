[package]
name = "elysia"
version = "0.1.0"
edition = "2021"
publish = false

[dependencies]
bytes = "*"
cacache = "*"
libwebp = "*"
lodepng = "*"
reqwest = { version = "*", default-features = false }
serde = { version = "*", features = ["derive"] }
serde_json = "*"
tar = "*"
