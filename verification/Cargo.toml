[package]
name = "packet_codec"
version = "0.1.0"
edition = "2021"
publish = false

[dependencies]
tokio = { version = "1", default-features = false, features = ["net", "io-util", "rt"] }

[dev-dependencies]
quickcheck = { version = "1", default-features = false }
