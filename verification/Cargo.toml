[package]
name = "ocl_image_resizer"
version = "0.1.0"
edition = "2021"
publish = false

[dependencies]
image = { version = "=0.25.10", default-features = false, features = ["png", "jpeg", "gif", "bmp", "ico", "tiff", "webp", "pnm", "hdr", "tga"] }
percent-encoding = "=1.0.1"
ocl = "=0.19.7"
clap = "=2.34.0"
log = "=0.4.35"
env_logger = "=0.5.13"
failure = "=0.1.8"
futures = "=0.1.31"
actix = "=0.5.8"
actix-web = { version = "=0.6.15", default-features = false }
