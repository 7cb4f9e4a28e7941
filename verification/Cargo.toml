[package]
name = "deluge"
version = "0.1.0"
edition = "2021"
publish = false

[dependencies]
xmltree = { version = "0.10", features = ["attribute-order"] }
quick-xml = "0.30"
version-compare = "0.1"
thiserror = "1"
bwavfile = "*"
