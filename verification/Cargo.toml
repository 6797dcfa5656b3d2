[package]
name = "open_accountability"
version = "0.1.0"
edition = "2021"
publish = false

[dependencies]
serde_json = "*"
rand = "*"
serde = { version = "*", features = ["derive"] }
tokio = { version = "*", features = ["rt-multi-thread", "macros", "time"] }
reqwest = { version = "*", default-features = false, features = ["json"] }
fireauth = "*"
ctrlc = "*"
signal-hook = "*"
leptess = "*"
image = { version = "*", default-features = false, features = ["png", "tiff"] }
