[package]
name = "promptline"
version = "0.1.0"
edition = "2021"
publish = false

[dependencies]
git2 = { version = "*", default-features = false }
colored = "*"
libc = "*"

[dev-dependencies]
tico = "*"
