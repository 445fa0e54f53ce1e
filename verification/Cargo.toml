[package]
name = "leafwing_abilities"
version = "0.1.0"
edition = "2021"
publish = false

[dependencies]
bevy = { version = "0.15", default-features = false }
serde = { version = "1", features = ["derive"] }
thiserror = "1"
derive_more = { version = "1", features = ["add", "add_assign"] }
