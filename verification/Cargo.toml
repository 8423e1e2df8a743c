[package]
name = "fvideo"
version = "0.1.0"
edition = "2021"
publish = false

[dependencies]
anyhow = "1"
c_fixed_string = "*"
chrono = "0.4"
ctrlc = "3"
ffmpeg-next = "*"
flume = "*"
log = "0.4"
pretty_env_logger = "*"
rand = "0.8"
sdl2 = "*"
serde = { version = "1", features = ["derive"] }
serialport = "4"
structopt = "0.3"
termion = "*"
thiserror = "1"
toml = "*"
x264-sys = "*"

[dev-dependencies]
regex = "1"
