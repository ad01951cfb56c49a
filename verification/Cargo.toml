[package]
name = "gtk_samples"
version = "0.1.0"
edition = "2021"
publish = false

[dependencies]
gtk = "0.4"
horrorshow = "0.6"
