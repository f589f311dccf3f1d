[package]
name = "channel_factory"
version = "0.1.0"
edition = "2021"
publish = false

[dependencies]
bitcoin = "*"
binary_sv2 = "*"
codec_sv2 = "*"
mining_sv2 = "*"
parsers_sv2 = "*"
template_distribution_sv2 = "*"
