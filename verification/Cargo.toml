[package]
name = "gnverify"
version = "0.1.0"
edition = "2021"
publish = false

[dependencies]
anyhow = "*"
atty = "*"
crossbeam-channel = "*"
csv = "*"
log = "*"
reqwest = { version = "*", default-features = false, features = ["blocking", "json"] }
same-file = "*"
serde = { version = "*", features = ["derive"] }
serde_json = "*"
stderrlog = "*"
