//! Scraping of the media of X (Twitter) posts.
pub mod config;
pub mod scraper;

pub use scraper::TwitterScraper;
