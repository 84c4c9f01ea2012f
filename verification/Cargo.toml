[package]
name = "charset_eval"
version = "0.1.0"
edition = "2021"
publish = false

[dependencies]
bzip2 = "=0.6.1"
chardet = "=0.2.4"
chardetng = { version = "=1.0.0", features = ["testing-only-no-semver-guarantees-do-not-use"] }
detone = "=1.0.1"
encoding_rs = "=0.8.42"
libc = "=0.2.191"
libflate = "=2.3.2"
quick-xml = "=0.42.0"
rayon = "=1.12.0"
regex = "=1.13.1"
unic-normal = "=0.9.0"
unicode-reverse = "=1.0.9"
