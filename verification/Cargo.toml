[package]
name = "robot36_encoder"
version = "0.1.0"
edition = "2021"

[dependencies]
hound = "3"
image = { version = "0.24", default-features = false, features = ["jpeg", "png"] }
num-complex = "0.4"
thiserror = "1"
