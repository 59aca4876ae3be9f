[package]
name = "bysqr"
version = "0.1.0"
edition = "2021"
publish = false

[dependencies]
base64 = "*"
clap = { version = "*", features = ["derive"] }
crc32fast = "*"
image = { version = "*", default-features = false, features = ["png"] }
jpeg-encoder = "*"
liblzma = { version = "*", features = ["static"] }
qrcode = "*"
quick-xml = { version = "*", features = ["serialize"] }
regex = "*"
resvg = "*"
serde = { version = "*", features = ["derive"] }
serde_json = "*"
usvg = "*"
xmltree = "*"
