[package]
name = "tennis_scores"
version = "0.1.0"
edition = "2021"
publish = false

[dependencies]
itertools = "0.10"
reqwest = { version = "0.11", features = ["blocking"] }
select = "0.6"
