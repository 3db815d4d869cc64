[package]
name = "vvvf_sound"
version = "0.1.0"
edition = "2021"
publish = false

[dependencies]
meval = "*"
serde = { version = "*", features = ["derive"] }
serde_json = "*"
zip = { version = "*", default-features = false, features = ["deflate"] }
lewton = "*"
rubato = "*"
