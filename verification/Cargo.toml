[package]
name = "css_stacker"
version = "0.1.0"
edition = "2021"
publish = false

[dependencies]
clap = { version = "4", features = ["derive"] }
grass = "*"
ignore = "*"
lightningcss = { version = ">=1.0.0-alpha.1", features = ["browserslist"] }
