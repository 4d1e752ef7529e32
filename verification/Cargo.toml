[package]
name = "classgate"
version = "0.1.0"
edition = "2021"
publish = false

[dependencies]
zip = { version = "*", default-features = false, features = ["deflate"] }
ini_core = "*"
jni = { version = "0.21", features = ["invocation"] }
log = "*"
env_logger = "*"
chrono = "*"
java-locator = "*"
libloading = "*"
once_cell = "*"
rustop = "*"
thiserror = "*"
