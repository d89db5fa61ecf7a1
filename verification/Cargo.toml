[package]
name = "zero-copy"
version = "0.1.0"
edition = "2021"
publish = false

[dependencies]
anchor-lang = "0.29.0"
bytemuck = { version = "1.4.0", features = ["derive", "min_const_generics"] }
