[package]
name = "oldplay"
version = "0.1.0"
edition = "2021"
publish = false

[dependencies]
cpal = "*"
tantivy = "=0.26.2"
ringbuf = "=0.5.2"
crossterm = "=0.29.0"
regex = "=1.13.1"
walkdir = "=2.5.0"
anyhow = "=1.0.104"
id3 = "=1.17.2"
mp3-duration = "=0.1.10"
rubato = "=5.0.1"
spectrum-analyzer = "=2.0.0"
clap = { version = "=4.6.7", features = ["derive"] }
musix = "=0.3.5"
