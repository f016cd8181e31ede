[package]
name = "mdbook_open_on_gh"
version = "0.1.0"
edition = "2021"
publish = false

[dependencies]
mdbook-preprocessor = "=0.5.4"
toml = "=1.1.7"
