[package]
name = "tinymist_task"
version = "0.1.0"
edition = "2021"
publish = false

[dependencies]
anyhow = "1"
chrono = "0.4"
typst = "0.13"
typst-html = "0.13"
typst-pdf = "0.13"
typst-render = "0.13"
typst-svg = "0.13"
