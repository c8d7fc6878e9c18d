[package]
name = "gumbo_lib"
version = "0.1.0"
edition = "2021"
publish = false

[dependencies]
actix-web = { version = "4", default-features = false, features = ["cookies"] }
aes-gcm = "0.10"
base16ct = { version = "0.2", features = ["alloc"] }
base64 = "0.22"
futures = "0.3"
log = "0.4"
minifier = "0.3"
rand = "0.9"
rkyv = "0.8"
sha3 = "0.10"
thiserror = "2"
tokio = { version = "1", features = ["sync"] }
yew = { version = "0.21", features = ["ssr"] }
