[package]
name = "image_host"
version = "0.1.0"
edition = "2021"
publish = false

[dependencies]
base64 = "0.13"
bson = "2"
dotenv = "0.15"
futures = "0.3"
image = "0.24"
lazy_static = "1"
log = "0.4"
mongodb = "2"
oxipng = { version = "9", default-features = false, features = ["parallel", "zopfli"] }
rand = "0.8"
rocket = { version = "0.5", features = ["json"] }
rocket-multipart-form-data = "0.10"
tokio = { version = "1", features = ["full"] }
webp = "0.2"
