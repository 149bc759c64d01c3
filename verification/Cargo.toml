[package]
name = "litho"
version = "0.1.0"
edition = "2021"
publish = false

[dependencies]
unindent = "0.2"
sourcemap = "6.4"
serde = { version = "1", features = ["derive"] }
serde_json = "1"
ariadne = "0.3"
logos = "0.12"
reqwest = { version = "0.11", default-features = false, features = ["json"] }
