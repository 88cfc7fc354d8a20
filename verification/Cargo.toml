[package]
name = "katsite"
version = "0.1.0"
edition = "2021"
publish = false

[dependencies]
ammonia = "=4.2.4"
brotli = "=9.0.0"
color_quant = "1"
comrak = { version = "=0.44.0", default-features = false }
exitcode = "=1.1.2"
extract-frontmatter = "=2.1.0"
glob = "=0.3.4"
htmlescape = "=0.3.1"
hyperbuild = "=0.2.4"
image = { version = "=0.25.10", default-features = false, features = ["png", "color_quant"] }
kstring = "=2.0.0"
liquid = "=0.26.11"
minify-html = "=0.18.1"
oxipng = { version = "=10.2.1", default-features = false, features = ["zopfli"] }
pulldown-cmark = { version = "=0.13.5", default-features = false, features = ["html"] }
rayon = "=1.12.0"
sass-rs = "=0.2.2"
serde = { version = "=1.0.229", features = ["derive"] }
serde_derive = "=1.0.229"
toml = "=0.9.8"
urlencoding = "=2.1.3"
