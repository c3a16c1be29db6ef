[package]
name = "tetris_core_rs"
version = "0.1.0"
edition = "2021"
publish = false

[dependencies]
rand = { version = "0.9", default-features = false }
rand_chacha = { version = "0.9", default-features = false }
rand_seeder = "0.4"
serde = { version = "1", features = ["derive"] }
