[package]
name = "flashcap"
version = "0.1.0"
edition = "2021"
publish = false

[dependencies]
base64 = "=0.22.1"
url = "=2.5.8"
# `codec::is_writable_extension` states which extensions `image` can write with exactly
# these encoders (png, jpeg, gif, bmp, webp, tiff). A build that turns on more `image`
# encoders (through feature unification, for instance) makes it too narrow: keep the two
# in step.
image = { version = "=0.25.10", default-features = false, features = ["png", "jpeg", "gif", "bmp", "webp", "tiff"] }
chrono = "=0.4.45"
serde = { version = "=1.0.229", features = ["derive"] }
tokio = { version = "=1.54.1", features = ["rt", "process", "time", "io-util"] }
dunce = "=1.0.5"
dirs = "=7.0.0"
libc = "=0.2.191"
core-foundation = "=0.10.1"
objc = "=0.2.7"
