[package]
name = "router"
version = "0.1.0"
edition = "2021"
publish = false

[dependencies]
urlpattern = "=0.6.0"
url = "=2.5.8"
regex = "=1.13.1"
worker = "=0.8.7"
