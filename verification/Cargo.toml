[package]
name = "crudgen"
version = "0.1.0"
edition = "2021"
publish = false

[dependencies]
convert_case = "*"
pluralizer = "*"
prost = "*"
serde = { version = "*", features = ["derive"] }
serde_json = "*"
