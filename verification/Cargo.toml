[package]
name = "usbooty"
version = "0.1.0"
edition = "2021"
publish = false

[dependencies]
sha2 = "0.10"
weezl = "0.1"
serde = { version = "1", features = ["derive"] }
serde_json = "1"
anyhow = "1"
directories = "*"
tempfile = "3"
ureq = "3"
cdfs = "*"
md-5 = "0.10"
sha1 = "0.10"
blake3 = "1"
flate2 = "1"
bzip2 = "*"
xz2 = "0.1"
zstd = "0.13"
zip = "*"
cxx-qt = "*"
cxx-qt-lib = "*"
