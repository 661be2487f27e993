[package]
name = "skater_scrape"
version = "0.1.0"
edition = "2021"
publish = false

[dependencies]
scraper = "=0.27.0"
csv = "=1.4.0"
tokio = { version = "=1.53.2", features = ["macros", "rt-multi-thread", "time"] }
undetected-chromedriver = "=0.1.2"
thirtyfour = "=0.31.0"
