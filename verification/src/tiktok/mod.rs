//! Scraping of TikTok video links.
pub mod config;
pub mod scraper;

pub use scraper::TikTokScraper;
