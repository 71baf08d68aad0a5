[package]
name = "linguars"
version = "0.1.0"
edition = "2021"
publish = false

[dependencies]
lingua = { version = "*", default-features = false, features = ["arabic", "english", "french", "german", "greek", "hindi", "latin", "marathi", "persian", "russian", "spanish", "ukrainian"] }
pyo3 = "*"
